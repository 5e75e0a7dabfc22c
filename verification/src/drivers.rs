//! Drivers for the actuators behind the controller.

pub mod mcp4725;
