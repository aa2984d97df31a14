//! Clock-driven procedure runner.

pub mod procedures_logic;
