[package]
name = "jolteon"
version = "0.1.0"
edition = "2021"
publish = false

[dependencies]
rodio = "0.19"
crossterm = "0.27"
ratatui = "0.26"
log = "0.4"
flexi_logger = "0.28"
