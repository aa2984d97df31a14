//! The std channels that connect the pages with their workers.
use std::sync::mpsc::{Receiver, Sender};
use vstd::prelude::*;

verus! {

#[verifier::external_type_specification]
#[verifier::external_body]
#[verifier::reject_recursive_types(T)]
pub struct ExSender<T>(Sender<T>);

#[verifier::external_type_specification]
#[verifier::external_body]
#[verifier::reject_recursive_types(T)]
pub struct ExReceiver<T>(Receiver<T>);

/// Calls `std::sync::mpsc::Sender::send` and reports whether the channel
/// took the message. Whether it does depends on the receiving end still
/// existing, which nothing here can see, so the result is left open.
#[verifier::external_body]
pub fn send_message<T>(tx: &Sender<T>, msg: T) -> (accepted: bool) {
    tx.send(msg).is_ok()
}

/// Calls `std::sync::mpsc::Receiver::try_recv` and returns the message that
/// was waiting, if any. What was waiting depends on the sending end, so the
/// result is left open.
#[verifier::external_body]
pub fn poll_message<T>(rx: &Receiver<T>) -> (msg: Option<T>) {
    rx.try_recv().ok()
}

} // verus!
