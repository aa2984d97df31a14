//! Messages of the serial link worker.
use vstd::prelude::*;

verus! {

/// A request that the link worker writes to the port as one byte.
#[derive(Debug, Clone, Copy, PartialEq, Eq, Structural)]
pub enum ToMcu {
    TogglePeripheral(u8),
    RunProcedure(u8),
    FlashFirmware,
}

/// What the link worker reports.
#[derive(Debug, Clone, Copy, PartialEq, Eq, Structural)]
pub enum FromMcu {
    /// The byte that the controller sent back.
    Echo(u8),
    Disconnected,
}

} // verus!
