//! A serial link to the controller, typed by its connection state, and the
//! decisions of the worker that drives the port.
use std::marker::PhantomData;
use std::sync::mpsc::{Receiver, Sender};
use vstd::prelude::*;
use vstd::string::StringExecFns;

use crate::channel::{poll_message, send_message};
use crate::comm::states::{FromMcu, ToMcu};

verus! {

/// Marker: no port is open.
pub struct Disconnected;

/// Marker: a port is open and a worker drives it.
pub struct Connected;

/// Marker: a port is being opened.
pub struct Connecting;

/// Why a link operation failed.
pub enum SerialError {
    /// The port could not be opened; the text says why.
    Open(String),
    /// The worker behind the link has stopped.
    Disconnected,
}

/// The text shown for an error.
pub open spec fn error_text(e: SerialError) -> Seq<char> {
    match e {
        SerialError::Open(reason) => "Cannot open a port: "@ + reason@,
        SerialError::Disconnected => "Port disconnected"@,
    }
}

impl SerialError {
    /// The text shown for this error.
    pub fn message(&self) -> (m: String)
        ensures
            m@ == error_text(*self),
    {
        match self {
            SerialError::Open(reason) => {
                let mut m = String::from_str("Cannot open a port: ");
                m.append(reason.as_str());
                m
            },
            SerialError::Disconnected => String::from_str("Port disconnected"),
        }
    }
}

/// A link to a port: its name and speed, and, once connected, the channels
/// to and from the worker that drives it.
pub struct SerialHandle<State> {
    pub port_name: String,
    pub baud_rate: u32,
    pub _state: PhantomData<State>,
    pub tx: Option<Sender<ToMcu>>,
    pub rx: Option<Receiver<FromMcu>>,
}

impl<State> SerialHandle<State> {
    pub open spec fn port(&self) -> Seq<char> {
        self.port_name@
    }

    pub open spec fn speed(&self) -> u32 {
        self.baud_rate
    }

    pub open spec fn sender(&self) -> Option<Sender<ToMcu>> {
        self.tx
    }

    pub open spec fn receiver(&self) -> Option<Receiver<FromMcu>> {
        self.rx
    }

    /// The name of the port.
    pub fn name(&self) -> (n: &String)
        ensures
            n@ == self.port(),
    {
        &self.port_name
    }
}

impl SerialHandle<Disconnected> {
    /// A link to `port_name` at `baud_rate`, not yet connected.
    pub fn new(port_name: &str, baud_rate: u32) -> (h: Self)
        ensures
            h.port() == port_name@,
            h.speed() == baud_rate,
            h.sender() is None,
            h.receiver() is None,
    {
        SerialHandle {
            port_name: String::from_str(port_name),
            baud_rate,
            _state: PhantomData,
            tx: None,
            rx: None,
        }
    }
}

impl SerialHandle<Connected> {
    /// The link to `port_name` once its worker runs behind `tx` and `rx`.
    pub fn with_worker(
        port_name: String,
        baud_rate: u32,
        tx: Sender<ToMcu>,
        rx: Receiver<FromMcu>,
    ) -> (h: Self)
        ensures
            h.port() == port_name@,
            h.speed() == baud_rate,
            h.sender() == Some(tx),
            h.receiver() == Some(rx),
    {
        SerialHandle { port_name, baud_rate, _state: PhantomData, tx: Some(tx), rx: Some(rx) }
    }

    /// Passes `msg` to the worker; fails with `Disconnected` when the worker
    /// has stopped.
    pub fn send(&self, msg: ToMcu) -> (r: Result<(), SerialError>)
        requires
            self.sender() is Some,
        ensures
            r is Ok || r == Err::<(), SerialError>(SerialError::Disconnected),
    {
        let tx = match &self.tx {
            Some(tx) => tx,
            None => {
                return Err(SerialError::Disconnected);
            },
        };
        if send_message(tx, msg) {
            Ok(())
        } else {
            Err(SerialError::Disconnected)
        }
    }

    /// The next report of the worker, if one is waiting.
    pub fn try_recv(&self) -> (msg: Option<FromMcu>)
        requires
            self.receiver() is Some,
    {
        match &self.rx {
            Some(rx) => poll_message(rx),
            None => None,
        }
    }

    /// Closes the link, which stops the worker, and gives back an
    /// unconnected link to the same port at the same speed.
    pub fn disconnect(self) -> (h: SerialHandle<Disconnected>)
        ensures
            h.port() == self.port(),
            h.speed() == self.speed(),
            h.sender() is None,
            h.receiver() is None,
    {
        SerialHandle::<Disconnected>::new(self.port_name.as_str(), self.baud_rate)
    }
}

/// The byte written to the port for a request.
pub open spec fn spec_encode(msg: ToMcu) -> u8 {
    match msg {
        ToMcu::FlashFirmware => 0xFF,
        ToMcu::TogglePeripheral(code) => code,
        ToMcu::RunProcedure(code) => code,
    }
}

/// The byte the worker writes to the port for `msg`.
pub fn encode_message(msg: ToMcu) -> (byte: u8)
    ensures
        byte == spec_encode(msg),
{
    match msg {
        ToMcu::FlashFirmware => 0xFF,
        ToMcu::TogglePeripheral(code) => code,
        ToMcu::RunProcedure(code) => code,
    }
}

/// How a read from the port ended.
#[derive(Debug, Clone, Copy, PartialEq, Eq, Structural)]
pub enum PortRead {
    /// This many bytes arrived; the first of them, when there was one.
    Received(usize, u8),
    /// Nothing arrived before the port's timeout.
    TimedOut,
    /// The port failed.
    Failed,
}

/// What the worker does after a port operation.
#[derive(Debug, Clone, Copy, PartialEq, Eq, Structural)]
pub struct LinkStep {
    /// A report for the page, if any.
    pub report: Option<FromMcu>,
    /// Whether the worker goes on.
    pub keep_running: bool,
}

/// What the link worker found when it looked for a request.
#[derive(Debug, Clone, Copy, PartialEq, Eq, Structural)]
pub enum Polled {
    /// A request from the page.
    Request(ToMcu),
    /// Nothing waiting.
    Empty,
    /// The page dropped its end of the link.
    Closed,
}

/// What the link worker does after looking for a request.
#[derive(Debug, Clone, Copy, PartialEq, Eq, Structural)]
pub struct PollStep {
    /// The byte to write to the port, if any.
    pub write: Option<u8>,
    /// Whether the worker goes on.
    pub keep_running: bool,
}

/// After looking for a request: a request is written as its byte, nothing
/// waiting changes nothing, and a dropped link stops the worker.
pub fn after_poll(polled: Polled) -> (step: PollStep)
    ensures
        step == match polled {
            Polled::Request(msg) => PollStep { write: Some(spec_encode(msg)), keep_running: true },
            Polled::Empty => PollStep { write: None, keep_running: true },
            Polled::Closed => PollStep { write: None, keep_running: false },
        },
{
    match polled {
        Polled::Request(msg) => PollStep { write: Some(encode_message(msg)), keep_running: true },
        Polled::Empty => PollStep { write: None, keep_running: true },
        Polled::Closed => PollStep { write: None, keep_running: false },
    }
}

/// After writing a request: a failed write reports the link as lost and
/// stops the worker.
pub fn after_write(written: bool) -> (step: LinkStep)
    ensures
        step == (if written {
            LinkStep { report: None, keep_running: true }
        } else {
            LinkStep { report: Some(FromMcu::Disconnected), keep_running: false }
        }),
{
    if written {
        LinkStep { report: None, keep_running: true }
    } else {
        LinkStep { report: Some(FromMcu::Disconnected), keep_running: false }
    }
}

/// After a read: a single byte is reported as the controller's echo, a
/// timeout or any other count is ignored, and a failure reports the link as
/// lost and stops the worker.
pub fn after_read(read: PortRead) -> (step: LinkStep)
    ensures
        step == (match read {
            PortRead::Received(n, byte) => if n == 1 {
                LinkStep { report: Some(FromMcu::Echo(byte)), keep_running: true }
            } else {
                LinkStep { report: None, keep_running: true }
            },
            PortRead::TimedOut => LinkStep { report: None, keep_running: true },
            PortRead::Failed => LinkStep { report: Some(FromMcu::Disconnected), keep_running: false },
        }),
{
    match read {
        PortRead::Received(n, byte) => {
            if n == 1 {
                LinkStep { report: Some(FromMcu::Echo(byte)), keep_running: true }
            } else {
                LinkStep { report: None, keep_running: true }
            }
        },
        PortRead::TimedOut => LinkStep { report: None, keep_running: true },
        PortRead::Failed => LinkStep { report: Some(FromMcu::Disconnected), keep_running: false },
    }
}

} // verus!
