//! Serial-link page and the decisions of the serial worker behind it.
use std::sync::mpsc::Sender;
use vstd::prelude::*;

use crate::config::{toggled, ActuatorsRegister};

verus! {

/// A request to the serial worker.
pub enum SerialCommand {
    RefreshPorts,
    Connect { port: String, baudrate: u32 },
    Disconnect,
    TogglePeripheral(u8),
}

/// What the serial worker reports.
pub enum SerialStatus {
    Disconnected,
    Connected(String),
    Error(String),
    PortList(Vec<String>),
}

/// What the serial worker does for a request.
pub enum SerialTask {
    /// Open this port, replacing any open one.
    OpenPort { port: String, baudrate: u32 },
    /// Write this code to the open port and wait for its echo.
    WriteToggle(u8),
    /// Close the port, if one is open, and report `Disconnected`.
    ClosePort,
    /// List the ports and report them.
    ListPorts,
    /// Nothing (a toggle while no port is open).
    Skip,
}

/// Plans the work for `cmd`; `port_open` says whether a port is open.
pub fn plan_command(cmd: SerialCommand, port_open: bool) -> (task: SerialTask)
    ensures
        match cmd {
            SerialCommand::RefreshPorts => task is ListPorts,
            SerialCommand::Connect { port, baudrate } => task == (SerialTask::OpenPort {
                port,
                baudrate,
            }),
            SerialCommand::Disconnect => task is ClosePort,
            SerialCommand::TogglePeripheral(code) => if port_open {
                task == SerialTask::WriteToggle(code)
            } else {
                task is Skip
            },
        },
{
    match cmd {
        SerialCommand::RefreshPorts => SerialTask::ListPorts,
        SerialCommand::Connect { port, baudrate } => SerialTask::OpenPort { port, baudrate },
        SerialCommand::Disconnect => SerialTask::ClosePort,
        SerialCommand::TogglePeripheral(code) => {
            if port_open {
                SerialTask::WriteToggle(code)
            } else {
                SerialTask::Skip
            }
        },
    }
}

/// The status reported after trying to open `port`: connected, or the
/// error's text.
pub fn open_outcome(port: String, result: Result<(), String>) -> (status: SerialStatus)
    ensures
        match result {
            Ok(()) => status == SerialStatus::Connected(port),
            Err(e) => status == SerialStatus::Error(e),
        },
{
    match result {
        Ok(()) => SerialStatus::Connected(port),
        Err(e) => SerialStatus::Error(e),
    }
}

/// After trying to write `code`: when the write succeeded and the controller
/// echoed the same byte, the actuator's state is flipped in the register.
/// `written` says whether the write succeeded; `echo` is the byte read back,
/// or `None` when the read failed or was not tried. Returns whether it was
/// flipped.
pub fn confirm_echo(
    register: &mut ActuatorsRegister,
    code: u8,
    written: bool,
    echo: Option<u8>,
) -> (flipped: bool)
    ensures
        flipped == (written && echo == Some(code)),
        final(register)@ == if flipped {
            toggled(old(register)@, code)
        } else {
            old(register)@
        },
{
    if !written {
        return false;
    }
    match echo {
        Some(byte) => {
            if byte == code {
                register.toggle_state(code);
                true
            } else {
                false
            }
        },
        None => false,
    }
}

/// A click on one of the serial-link page's buttons.
pub enum SerialPageClick {
    Refresh,
    Connect,
    Disconnect,
}

/// The speeds offered on the page.
pub open spec fn offered_baud_rates() -> Seq<u32> {
    seq![9600, 19200, 38400, 57600, 115200]
}

/// The serial-link page: the chosen port and speed.
pub struct SerialPage {
    pub tx_command: Sender<SerialCommand>,
    pub selected_port: String,
    pub baud_rate: u32,
    pub baud_rates: Vec<u32>,
}

impl SerialPage {
    /// No port chosen, 115200 baud.
    pub fn new(tx_command: Sender<SerialCommand>) -> (page: Self)
        ensures
            page.tx_command == tx_command,
            page.selected_port@.len() == 0,
            page.baud_rate == 115200,
            page.baud_rates@ == offered_baud_rates(),
    {
        let mut baud_rates: Vec<u32> = Vec::new();
        baud_rates.push(9600);
        baud_rates.push(19200);
        baud_rates.push(38400);
        baud_rates.push(57600);
        baud_rates.push(115200);
        assert(baud_rates@ =~= offered_baud_rates());
        SerialPage { tx_command, selected_port: String::new(), baud_rate: 115200, baud_rates }
    }

    /// The request that "Connect" sends: none while no port is chosen.
    pub fn connect_request(&self) -> (cmd: Option<SerialCommand>)
        ensures
            if self.selected_port@.len() == 0 {
                cmd is None
            } else {
                cmd matches Some(SerialCommand::Connect { port, baudrate }) && port@
                    == self.selected_port@ && baudrate == self.baud_rate
            },
    {
        if self.selected_port.as_str().unicode_len() == 0 {
            None
        } else {
            Some(SerialCommand::Connect { port: self.selected_port.clone(), baudrate: self.baud_rate })
        }
    }

    /// The request a click sends, given whether the link is connected:
    /// "Refresh" and "Connect" only while disconnected ("Connect" also needs
    /// a chosen port), "Disconnect" only while connected.
    pub fn on_click(&self, connected: bool, click: SerialPageClick) -> (cmd: Option<
        SerialCommand,
    >)
        ensures
            match click {
                SerialPageClick::Refresh => if connected {
                    cmd is None
                } else {
                    cmd matches Some(SerialCommand::RefreshPorts)
                },
                SerialPageClick::Connect => if connected || self.selected_port@.len() == 0 {
                    cmd is None
                } else {
                    cmd matches Some(SerialCommand::Connect { port, baudrate }) && port@
                        == self.selected_port@ && baudrate == self.baud_rate
                },
                SerialPageClick::Disconnect => if connected {
                    cmd matches Some(SerialCommand::Disconnect)
                } else {
                    cmd is None
                },
            },
    {
        match click {
            SerialPageClick::Refresh => if connected {
                None
            } else {
                Some(SerialCommand::RefreshPorts)
            },
            SerialPageClick::Connect => if connected {
                None
            } else {
                self.connect_request()
            },
            SerialPageClick::Disconnect => if connected {
                Some(SerialCommand::Disconnect)
            } else {
                None
            },
        }
    }
}

} // verus!
