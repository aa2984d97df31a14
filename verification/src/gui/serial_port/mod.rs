//! Serial-port selection and connection state.

pub mod serial_port_logic;
pub mod serial_port_page;
