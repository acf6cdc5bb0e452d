[package]
name = "ttop"
version = "0.1.0"
edition = "2021"
publish = false

[dependencies]
sysinfo = "0.29"
ratatui = "0.23"
crossterm = "0.27"
