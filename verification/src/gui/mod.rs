//! State and decisions behind the application's pages.

pub mod actuators;
pub mod builder;
pub mod components;
pub mod composite;
pub mod pages;
pub mod procedures;
pub mod serial_port;
