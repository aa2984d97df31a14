//! Messages exchanged with the microcontroller, and a pair of channels that
//! carries them.

pub mod serial;
pub mod states;

use std::sync::mpsc::{Receiver, Sender};
use vstd::prelude::*;

verus! {

/// A request for the microcontroller.
pub enum ToMcu {
    TogglePeripheral(u8),
    RunProcedure(u8),
    FlashFirmware,
}

/// A report from the microcontroller.
pub enum FromMcu {
    Echo(u8, bool),
    ProcedureStatus(u8),
    Error(String),
}

/// Both directions of a link with the microcontroller.
pub struct CommHandle {
    pub tx: Sender<ToMcu>,
    pub rx: Receiver<FromMcu>,
}

} // verus!
