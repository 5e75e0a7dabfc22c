//! Decoding of steering-wheel controller reports and their conversion into
//! actuation commands, together with the device lifecycle that feeds them.

pub mod controller;
pub mod devices;
pub mod drivers;
pub mod telemetry;
pub mod widgets;
