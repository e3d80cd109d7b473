[package]
name = "bevy_ratatui"
version = "0.1.0"
edition = "2021"
publish = false

[dependencies]
bevy = { version = "0.14", default-features = false }
bitflags = "2"
color-eyre = "0.6"
crossterm = "0.28"
ratatui = "0.28"
smol_str = "0.2"
