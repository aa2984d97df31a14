//! Identifiers of the application's pages.
use vstd::prelude::*;

verus! {

/// The pages of the application.
#[derive(Debug, Clone, Copy, PartialEq, Eq, Hash, Structural)]
pub enum PageType {
    Actuators,
    Procedures,
    SerialPort,
    Flash,
}

} // verus!
