//! The actuator-control page.

pub mod actuators_page;
