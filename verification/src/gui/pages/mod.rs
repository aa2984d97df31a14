//! The application's pages and the worker logic they drive.

pub mod comm_port;
pub mod memory_flash;
pub mod proc_control;
pub mod procedures;
pub mod serial_control;
