[package]
name = "hid_rc_controller"
version = "0.1.0"
edition = "2021"
publish = false

[dependencies]
crossterm = "=0.28.1"
embedded-hal = "=1.0.0"
hidapi = { version = "=2.6.7", default-features = false, features = ["linux-native-basic-udev"] }
linux-embedded-hal = "=0.4.1"
ratatui = "=0.29.0"
