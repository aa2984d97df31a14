//! A port-selection panel: which port and speed to open, or the open link.
use vstd::prelude::*;

use crate::comm::serial::{Connected, SerialHandle};

verus! {

/// What the panel asks for after a click.
pub enum SerialAction {
    Connect { port: String, baud_rate: u32 },
    Disconnect,
    /// Nothing to do.
    Nothing,
}

/// Choosing a port, or connected.
pub enum ConnectionState {
    Disconnected {
        ports: Vec<String>,
        selected: usize,
        baud_rate: u32,
        last_error: Option<String>,
    },
    Connected { handle: SerialHandle<Connected> },
}

/// A click on one of the panel's buttons.
pub enum PanelClick {
    /// "Refresh", with the ports listed now.
    Refresh(Vec<String>),
    Connect,
    Disconnect,
}

impl ConnectionState {
    /// Choosing among `ports`, the first selected, at 115200 baud.
    pub fn new(ports: Vec<String>) -> (s: Self)
        ensures
            s matches ConnectionState::Disconnected { ports: p, selected, baud_rate, last_error }
                && p == ports && selected == 0 && baud_rate == 115200 && last_error is None,
    {
        ConnectionState::Disconnected { ports, selected: 0, baud_rate: 115200, last_error: None }
    }

    /// Handles a click. While choosing: "Refresh" replaces the port list and
    /// selects its first entry; "Connect" asks to open the selected port (an
    /// empty name when the selection is past the list) at the chosen speed.
    /// While connected: "Disconnect" asks to close the link. Any other click
    /// asks for nothing and changes nothing.
    pub fn on_click(&mut self, click: PanelClick) -> (action: SerialAction)
        ensures
            match (*old(self), click) {
                (
                    ConnectionState::Disconnected { baud_rate, last_error, .. },
                    PanelClick::Refresh(fresh),
                ) => {
                    &&& action is Nothing
                    &&& *final(self) matches ConnectionState::Disconnected {
                        ports: p,
                        selected: s,
                        baud_rate: b,
                        last_error: e,
                    } && p == fresh && s == 0 && b == baud_rate && e == last_error
                },
                (
                    ConnectionState::Disconnected { ports, selected, baud_rate, .. },
                    PanelClick::Connect,
                ) => {
                    &&& *final(self) == *old(self)
                    &&& action matches SerialAction::Connect { port, baud_rate: b } && b
                        == baud_rate && port@ == (if selected < ports@.len() {
                        ports@[selected as int]@
                    } else {
                        Seq::<char>::empty()
                    })
                },
                (ConnectionState::Connected { .. }, PanelClick::Disconnect) => *final(self)
                    == *old(self) && action is Disconnect,
                _ => *final(self) == *old(self) && action is Nothing,
            },
    {
        match click {
            PanelClick::Refresh(fresh) => {
                match self {
                    ConnectionState::Disconnected { ports, selected, .. } => {
                        *ports = fresh;
                        *selected = 0;
                    },
                    ConnectionState::Connected { .. } => {},
                }
                SerialAction::Nothing
            },
            PanelClick::Connect => match self {
                ConnectionState::Disconnected { ports, selected, baud_rate, .. } => {
                    let port = if *selected < ports.len() {
                        ports[*selected].clone()
                    } else {
                        String::new()
                    };
                    SerialAction::Connect { port, baud_rate: *baud_rate }
                },
                ConnectionState::Connected { .. } => SerialAction::Nothing,
            },
            PanelClick::Disconnect => match self {
                ConnectionState::Connected { .. } => SerialAction::Disconnect,
                ConnectionState::Disconnected { .. } => SerialAction::Nothing,
            },
        }
    }
}

} // verus!
