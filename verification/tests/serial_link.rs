use std::sync::mpsc::channel;

use gravite_hydrotest::comm::serial::{
    after_poll, after_read, after_write, encode_message, LinkStep, PollStep, Polled, PortRead,
    SerialError, SerialHandle,
};
use gravite_hydrotest::comm::states::{FromMcu, ToMcu};
use gravite_hydrotest::config::{Actuator, ActuatorsRegister};
use gravite_hydrotest::gui::pages::serial_control::{
    confirm_echo, open_outcome, plan_command, SerialCommand, SerialPage, SerialPageClick,
    SerialStatus, SerialTask,
};

#[test]
fn encoding_of_requests() {
    assert_eq!(encode_message(ToMcu::FlashFirmware), 0xFF);
    assert_eq!(encode_message(ToMcu::TogglePeripheral(0x12)), 0x12);
    assert_eq!(encode_message(ToMcu::RunProcedure(0x34)), 0x34);
}

#[test]
fn read_outcomes() {
    assert_eq!(
        after_read(PortRead::Received(1, 0x42)),
        LinkStep { report: Some(FromMcu::Echo(0x42)), keep_running: true }
    );
    assert_eq!(after_read(PortRead::Received(0, 0)), LinkStep { report: None, keep_running: true });
    assert_eq!(after_read(PortRead::TimedOut), LinkStep { report: None, keep_running: true });
    assert_eq!(
        after_read(PortRead::Failed),
        LinkStep { report: Some(FromMcu::Disconnected), keep_running: false }
    );
}

#[test]
fn write_outcomes() {
    assert_eq!(after_write(true), LinkStep { report: None, keep_running: true });
    assert_eq!(
        after_write(false),
        LinkStep { report: Some(FromMcu::Disconnected), keep_running: false }
    );
}

#[test]
fn error_texts() {
    assert_eq!(SerialError::Open("busy".to_string()).message(), "Cannot open a port: busy");
    assert_eq!(SerialError::Disconnected.message(), "Port disconnected");
}

#[test]
fn new_handle_and_disconnect_keep_port_and_speed() {
    let h = SerialHandle::new("/dev/ttyUSB0", 9600);
    assert_eq!(h.port_name, "/dev/ttyUSB0");
    assert_eq!(h.baud_rate, 9600);
    assert!(h.tx.is_none() && h.rx.is_none());
    let (tx, _rx_worker) = channel::<ToMcu>();
    let (_tx_worker, rx) = channel::<FromMcu>();
    let connected = SerialHandle::with_worker("/dev/ttyUSB0".to_string(), 9600, tx, rx);
    let back = connected.disconnect();
    assert_eq!(back.name(), "/dev/ttyUSB0");
    assert_eq!(back.baud_rate, 9600);
    assert!(back.tx.is_none() && back.rx.is_none());
}

#[test]
fn send_reaches_worker_and_fails_once_it_is_gone() {
    let (tx, rx_worker) = channel::<ToMcu>();
    let (tx_worker, rx) = channel::<FromMcu>();
    let h = SerialHandle::with_worker("COM3".to_string(), 115200, tx, rx);
    assert!(h.send(ToMcu::TogglePeripheral(5)).is_ok());
    assert_eq!(rx_worker.try_recv().unwrap(), ToMcu::TogglePeripheral(5));
    assert!(h.try_recv().is_none());
    tx_worker.send(FromMcu::Echo(5)).unwrap();
    assert_eq!(h.try_recv(), Some(FromMcu::Echo(5)));
    drop(rx_worker);
    assert!(matches!(h.send(ToMcu::FlashFirmware), Err(SerialError::Disconnected)));
}

#[test]
fn planning_of_worker_requests() {
    assert!(matches!(plan_command(SerialCommand::RefreshPorts, false), SerialTask::ListPorts));
    assert!(matches!(plan_command(SerialCommand::Disconnect, true), SerialTask::ClosePort));
    assert!(matches!(plan_command(SerialCommand::TogglePeripheral(3), true), SerialTask::WriteToggle(3)));
    assert!(matches!(plan_command(SerialCommand::TogglePeripheral(3), false), SerialTask::Skip));
    match plan_command(SerialCommand::Connect { port: "COM1".to_string(), baudrate: 57600 }, true) {
        SerialTask::OpenPort { port, baudrate } => {
            assert_eq!(port, "COM1");
            assert_eq!(baudrate, 57600);
        }
        _ => panic!("expected an open"),
    }
}

#[test]
fn open_outcomes() {
    assert!(matches!(open_outcome("COM1".to_string(), Ok(())), SerialStatus::Connected(p) if p == "COM1"));
    assert!(matches!(open_outcome("COM1".to_string(), Err("no such port".to_string())), SerialStatus::Error(e) if e == "no such port"));
}

#[test]
fn echo_confirms_toggle_only_when_it_matches() {
    let mut reg = ActuatorsRegister {
        items: vec![Actuator { name: "Pump".to_string(), code: 4, is_active: false }],
    };
    assert!(!confirm_echo(&mut reg, 4, true, Some(5)));
    assert!(!reg.items[0].is_active);
    assert!(!confirm_echo(&mut reg, 4, true, None));
    assert!(!reg.items[0].is_active);
    assert!(!confirm_echo(&mut reg, 4, false, Some(4)));
    assert!(!reg.items[0].is_active);
    assert!(confirm_echo(&mut reg, 4, true, Some(4)));
    assert!(reg.items[0].is_active);
}

#[test]
fn serial_page_defaults_and_connect_request() {
    let (tx, _rx) = channel::<SerialCommand>();
    let mut page = SerialPage::new(tx);
    assert_eq!(page.baud_rate, 115200);
    assert_eq!(page.baud_rates, vec![9600, 19200, 38400, 57600, 115200]);
    assert!(page.connect_request().is_none());
    page.selected_port = "COM7".to_string();
    page.baud_rate = 9600;
    match page.connect_request() {
        Some(SerialCommand::Connect { port, baudrate }) => {
            assert_eq!(port, "COM7");
            assert_eq!(baudrate, 9600);
        }
        _ => panic!("expected a connect request"),
    }
}

#[test]
fn poll_outcomes() {
    assert_eq!(
        after_poll(Polled::Request(ToMcu::FlashFirmware)),
        PollStep { write: Some(0xFF), keep_running: true }
    );
    assert_eq!(
        after_poll(Polled::Request(ToMcu::TogglePeripheral(7))),
        PollStep { write: Some(7), keep_running: true }
    );
    assert_eq!(after_poll(Polled::Empty), PollStep { write: None, keep_running: true });
    assert_eq!(after_poll(Polled::Closed), PollStep { write: None, keep_running: false });
}

#[test]
fn serial_page_click_gating() {
    let (tx, _rx) = channel::<SerialCommand>();
    let mut page = SerialPage::new(tx);
    assert!(matches!(page.on_click(false, SerialPageClick::Refresh), Some(SerialCommand::RefreshPorts)));
    assert!(page.on_click(true, SerialPageClick::Refresh).is_none());
    assert!(page.on_click(false, SerialPageClick::Connect).is_none());
    page.selected_port = "COM2".to_string();
    assert!(matches!(page.on_click(false, SerialPageClick::Connect), Some(SerialCommand::Connect { .. })));
    assert!(page.on_click(true, SerialPageClick::Connect).is_none());
    assert!(matches!(page.on_click(true, SerialPageClick::Disconnect), Some(SerialCommand::Disconnect)));
    assert!(page.on_click(false, SerialPageClick::Disconnect).is_none());
}
