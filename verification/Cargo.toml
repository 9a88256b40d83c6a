[package]
name = "sysdash"
version = "0.1.0"
edition = "2021"
publish = false

[dependencies]
bytesize = "1"
crossterm = "0.27"
ratatui = "0.26"
systemstat = "0.2"
