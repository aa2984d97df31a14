use std::sync::mpsc::channel;

use gravite_hydrotest::comm::serial::{SerialError, SerialHandle};
use gravite_hydrotest::comm::states::{FromMcu, ToMcu};
use gravite_hydrotest::gui::pages::comm_port::{self, PanelClick, SerialAction};
use gravite_hydrotest::gui::serial_port::serial_port_logic::{
    ConnectionState, PortPageClick, PortPageRequest,
};
use gravite_hydrotest::gui::serial_port::serial_port_page::SerialPortPage;

fn ports(names: &[&str]) -> Vec<String> {
    names.iter().map(|s| s.to_string()).collect()
}

fn link(name: &str) -> SerialHandle<gravite_hydrotest::comm::serial::Connected> {
    let (tx, _a) = channel::<ToMcu>();
    let (_b, rx) = channel::<FromMcu>();
    SerialHandle::with_worker(name.to_string(), 115200, tx, rx)
}

#[test]
fn new_state_chooses_first_port_at_default_speed() {
    match ConnectionState::new(ports(&["COM1", "COM2"])) {
        ConnectionState::Disconnected { ports, selected, baud_rate, last_error } => {
            assert_eq!(ports.len(), 2);
            assert_eq!(selected, 0);
            assert_eq!(baud_rate, 115200);
            assert!(last_error.is_none());
        }
        _ => panic!("expected disconnected"),
    }
    let page = SerialPortPage::new(vec![]);
    assert!(matches!(page.state, ConnectionState::Disconnected { selected: 0, baud_rate: 115200, .. }));
}

#[test]
fn failed_connect_keeps_error() {
    let mut state = ConnectionState::new(ports(&["COM1"]));
    let r = state.try_connect(Err(SerialError::Open("access denied".to_string())));
    assert_eq!(r, Err("Cannot open a port: access denied".to_string()));
    match state {
        ConnectionState::Disconnected { last_error, selected, .. } => {
            assert_eq!(last_error, Some("Cannot open a port: access denied".to_string()));
            assert_eq!(selected, 0);
        }
        _ => panic!("expected disconnected"),
    }
}

#[test]
fn successful_connect_then_disconnect_reselects_port() {
    let mut state = ConnectionState::new(ports(&["COM1", "COM2"]));
    assert_eq!(state.try_connect(Ok(link("COM2"))), Ok(()));
    assert!(matches!(state, ConnectionState::Connected { .. }));
    state.try_disconnect(ports(&["COM0", "COM1", "COM2"]));
    match state {
        ConnectionState::Disconnected { ports, selected, baud_rate, last_error } => {
            assert_eq!(ports.len(), 3);
            assert_eq!(selected, 2);
            assert_eq!(baud_rate, 115200);
            assert!(last_error.is_none());
        }
        _ => panic!("expected disconnected"),
    }
}

#[test]
fn disconnect_of_vanished_port_selects_first() {
    let mut state = ConnectionState::new(vec![]);
    state.try_connect(Ok(link("COM9"))).unwrap();
    state.try_disconnect(ports(&["COM1"]));
    assert!(matches!(state, ConnectionState::Disconnected { selected: 0, .. }));
}

#[test]
fn disconnect_while_choosing_starts_over() {
    let mut state = ConnectionState::new(ports(&["COM1", "COM2"]));
    if let ConnectionState::Disconnected { selected, baud_rate, .. } = &mut state {
        *selected = 1;
        *baud_rate = 9600;
    }
    state.try_disconnect(ports(&["COM1", "COM2"]));
    assert!(matches!(state, ConnectionState::Disconnected { selected: 0, baud_rate: 115200, .. }));
}

#[test]
fn panel_clicks() {
    let mut state = comm_port::ConnectionState::new(ports(&["A", "B"]));
    if let comm_port::ConnectionState::Disconnected { selected, baud_rate, .. } = &mut state {
        *selected = 1;
        *baud_rate = 38400;
    }
    match state.on_click(PanelClick::Connect) {
        SerialAction::Connect { port, baud_rate } => {
            assert_eq!(port, "B");
            assert_eq!(baud_rate, 38400);
        }
        _ => panic!("expected connect"),
    }
    assert!(matches!(state.on_click(PanelClick::Disconnect), SerialAction::Nothing));
    assert!(matches!(state.on_click(PanelClick::Refresh(ports(&["C"]))), SerialAction::Nothing));
    assert!(matches!(state, comm_port::ConnectionState::Disconnected { selected: 0, baud_rate: 38400, .. }));
    if let comm_port::ConnectionState::Disconnected { selected, .. } = &mut state {
        *selected = 5;
    }
    match state.on_click(PanelClick::Connect) {
        SerialAction::Connect { port, .. } => assert_eq!(port, ""),
        _ => panic!("expected connect"),
    }
    let mut connected = comm_port::ConnectionState::Connected { handle: link("A") };
    assert!(matches!(connected.on_click(PanelClick::Disconnect), SerialAction::Disconnect));
    assert!(matches!(connected.on_click(PanelClick::Connect), SerialAction::Nothing));
}

#[test]
fn serial_port_page_clicks() {
    let mut state = ConnectionState::new(ports(&["COM1", "COM2"]));
    if let ConnectionState::Disconnected { selected, baud_rate, .. } = &mut state {
        *selected = 1;
        *baud_rate = 9600;
    }
    match state.on_page_click(PortPageClick::Connect) {
        Some(PortPageRequest::ConnectSerial { port, baud }) => {
            assert_eq!(port, "COM2");
            assert_eq!(baud, 9600);
        }
        _ => panic!("expected a connect request"),
    }
    assert!(state.on_page_click(PortPageClick::Refresh(ports(&["COM5"]))).is_none());
    assert!(matches!(state, ConnectionState::Disconnected { selected: 1, baud_rate: 9600, .. }));
    assert!(state.on_page_click(PortPageClick::Connect).is_none());
    assert!(state.on_page_click(PortPageClick::Disconnect).is_none());
    let mut connected = ConnectionState::new(vec![]);
    connected.try_connect(Ok(link("COM1"))).unwrap();
    assert!(matches!(connected.on_page_click(PortPageClick::Disconnect), Some(PortPageRequest::DisconnectSerial)));
    assert!(connected.on_page_click(PortPageClick::Connect).is_none());
}
