//! The serial-port page.
use vstd::prelude::*;

use crate::gui::serial_port::serial_port_logic::{ConnectionState, DEFAULT_BAUD_RATE};

verus! {

pub struct SerialPortPage {
    pub state: ConnectionState,
}

impl SerialPortPage {
    /// The page, choosing among `ports`.
    pub fn new(ports: Vec<String>) -> (page: Self)
        ensures
            page.state matches ConnectionState::Disconnected {
                ports: p,
                selected,
                baud_rate,
                last_error,
            } && p == ports && selected == 0 && baud_rate == DEFAULT_BAUD_RATE && last_error is None,
    {
        SerialPortPage { state: ConnectionState::new(ports) }
    }
}

} // verus!
