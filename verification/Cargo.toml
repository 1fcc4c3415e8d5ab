[package]
name = "termshark"
version = "0.1.0"
edition = "2021"
publish = false

[dependencies]
chrono = "=0.4.45"
pcap = "=2.5.0"
ratatui = "=0.30.2"
argh = "=0.1.19"
crossterm-keybind = "=0.4.4"
tui-input = "=0.15.5"
serde = { version = "=1.0.229", features = ["derive"] }
