//! Connection state of the serial-port page.
use vstd::prelude::*;

use crate::comm::serial::{error_text, Connected, SerialError, SerialHandle};
use crate::seq_search::{find_first, lemma_find_first_at, lemma_find_first_none};

verus! {

/// Either choosing a port to open, or connected through a link.
pub enum ConnectionState {
    Disconnected {
        ports: Vec<String>,
        selected: usize,
        baud_rate: u32,
        last_error: Option<String>,
    },
    Connected { handle: SerialHandle<Connected> },
}

/// A click on one of the serial-port page's buttons.
pub enum PortPageClick {
    /// "Refresh", with the ports listed now.
    Refresh(Vec<String>),
    Connect,
    Disconnect,
}

/// What the serial-port page asks the application for.
pub enum PortPageRequest {
    ConnectSerial { port: String, baud: u32 },
    DisconnectSerial,
}

/// The speed offered when nothing else was chosen.
pub const DEFAULT_BAUD_RATE: u32 = 115200;

pub open spec fn names_view(ports: Seq<String>) -> Seq<Seq<char>> {
    ports.map_values(|p: String| p@)
}

pub open spec fn same_name(name: Seq<char>) -> spec_fn(Seq<char>) -> bool {
    |p: Seq<char>| p == name
}

/// Index of the first port called `name`.
pub fn port_position(ports: &Vec<String>, name: &String) -> (pos: Option<usize>)
    ensures
        match pos {
            Some(i) => find_first(names_view(ports@), same_name(name@)) == Some(i as int),
            None => find_first(names_view(ports@), same_name(name@)) is None,
        },
{
    let n = ports.len();
    let mut i: usize = 0;
    while i < n
        invariant
            n == ports@.len(),
            i <= n,
            forall|j: int| 0 <= j < i ==> !same_name(name@)(#[trigger] names_view(ports@)[j]),
        decreases n - i,
    {
        if ports[i] == *name {
            proof {
                lemma_find_first_at(names_view(ports@), same_name(name@), i as int);
            }
            return Some(i);
        }
        i = i + 1;
    }
    proof {
        lemma_find_first_none(names_view(ports@), same_name(name@));
    }
    None
}

impl ConnectionState {
    /// Choosing among `ports`, the first one selected, at the default speed.
    pub fn new(ports: Vec<String>) -> (s: Self)
        ensures
            s matches ConnectionState::Disconnected { ports: p, selected, baud_rate, last_error }
                && p == ports && selected == 0 && baud_rate == DEFAULT_BAUD_RATE
                && last_error is None,
    {
        ConnectionState::Disconnected {
            ports,
            selected: 0,
            baud_rate: DEFAULT_BAUD_RATE,
            last_error: None,
        }
    }

    /// Takes in the outcome of opening a port: a link makes the state
    /// connected; an error is returned as text and, while choosing a port,
    /// kept as the last error.
    pub fn try_connect(&mut self, outcome: Result<SerialHandle<Connected>, SerialError>) -> (r:
        Result<(), String>)
        ensures
            match outcome {
                Ok(h) => r is Ok && *final(self) == (ConnectionState::Connected { handle: h }),
                Err(e) => {
                    &&& r matches Err(m) && m@ == error_text(e)
                    &&& match *old(self) {
                        ConnectionState::Disconnected { ports, selected, baud_rate, .. } => {
                            *final(self) matches ConnectionState::Disconnected {
                                ports: p,
                                selected: s,
                                baud_rate: b,
                                last_error: Some(le),
                            } && p == ports && s == selected && b == baud_rate && le@ == error_text(
                                e,
                            )
                        },
                        ConnectionState::Connected { .. } => *final(self) == *old(self),
                    }
                },
            },
    {
        match outcome {
            Ok(connected) => {
                *self = ConnectionState::Connected { handle: connected };
                Ok(())
            },
            Err(e) => {
                let err_msg = e.message();
                match self {
                    ConnectionState::Disconnected { last_error, .. } => {
                        *last_error = Some(err_msg.clone());
                    },
                    ConnectionState::Connected { .. } => {},
                }
                Err(err_msg)
            },
        }
    }

    /// Closes the link, if there is one, and starts choosing again among
    /// `ports` (freshly listed) at the default speed; the port that was
    /// connected stays selected when it is still listed.
    pub fn try_disconnect(&mut self, ports: Vec<String>)
        ensures
            *final(self) matches ConnectionState::Disconnected {
                ports: p,
                selected,
                baud_rate,
                last_error,
            } && p == ports && baud_rate == DEFAULT_BAUD_RATE && last_error is None
                && selected == match *old(self) {
                ConnectionState::Connected { handle } => match find_first(
                    names_view(ports@),
                    same_name(handle.port()),
                ) {
                    Some(i) => i as usize,
                    None => 0,
                },
                ConnectionState::Disconnected { .. } => 0,
            },
    {
        let mut old_state = ConnectionState::new(ports);
        std::mem::swap(self, &mut old_state);
        match old_state {
            ConnectionState::Connected { handle } => {
                let disconnected_name = handle.name().clone();
                assert(disconnected_name@ == handle.port());
                let _ = handle.disconnect();
                match self {
                    ConnectionState::Disconnected { ports, selected, .. } => {
                        match port_position(ports, &disconnected_name) {
                            Some(pos) => {
                                *selected = pos;
                            },
                            None => {},
                        }
                    },
                    ConnectionState::Connected { .. } => {},
                }
            },
            ConnectionState::Disconnected { .. } => {},
        }
    }

    /// Handles a click on the page. While choosing: "Refresh" replaces the
    /// port list and keeps the selection, speed and last error; "Connect"
    /// asks to open the selected port at the chosen speed when the selection
    /// is within the list. While connected: "Disconnect" asks to close the
    /// link. Any other click asks for nothing and changes nothing.
    pub fn on_page_click(&mut self, click: PortPageClick) -> (msg: Option<PortPageRequest>)
        ensures
            match (*old(self), click) {
                (
                    ConnectionState::Disconnected { selected, baud_rate, last_error, .. },
                    PortPageClick::Refresh(fresh),
                ) => {
                    &&& msg is None
                    &&& *final(self) matches ConnectionState::Disconnected {
                        ports: p,
                        selected: s,
                        baud_rate: b,
                        last_error: e,
                    } && p == fresh && s == selected && b == baud_rate && e == last_error
                },
                (
                    ConnectionState::Disconnected { ports, selected, baud_rate, .. },
                    PortPageClick::Connect,
                ) => {
                    &&& *final(self) == *old(self)
                    &&& if selected < ports@.len() {
                        msg matches Some(PortPageRequest::ConnectSerial { port, baud }) && port@
                            == ports@[selected as int]@ && baud == baud_rate
                    } else {
                        msg is None
                    }
                },
                (ConnectionState::Connected { .. }, PortPageClick::Disconnect) => {
                    &&& *final(self) == *old(self)
                    &&& msg matches Some(PortPageRequest::DisconnectSerial)
                },
                _ => *final(self) == *old(self) && msg is None,
            },
    {
        match click {
            PortPageClick::Refresh(fresh) => {
                match self {
                    ConnectionState::Disconnected { ports, .. } => {
                        *ports = fresh;
                    },
                    ConnectionState::Connected { .. } => {},
                }
                None
            },
            PortPageClick::Connect => match self {
                ConnectionState::Disconnected { ports, selected, baud_rate, .. } => {
                    if *selected < ports.len() {
                        Some(
                            PortPageRequest::ConnectSerial {
                                port: ports[*selected].clone(),
                                baud: *baud_rate,
                            },
                        )
                    } else {
                        None
                    }
                },
                ConnectionState::Connected { .. } => None,
            },
            PortPageClick::Disconnect => match self {
                ConnectionState::Connected { .. } => Some(PortPageRequest::DisconnectSerial),
                ConnectionState::Disconnected { .. } => None,
            },
        }
    }
}

} // verus!
