//! Test-bench control logic for a hydraulic test rig: actuator registry,
//! test-procedure sequencing, serial-link decisions and GUI page state.

pub mod config;
pub mod seq_search;
pub mod gui;
pub mod channel;
pub mod comm;
