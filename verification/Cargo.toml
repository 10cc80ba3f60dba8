[package]
name = "arcorrust"
version = "0.1.0"
edition = "2021"
publish = false

[dependencies]
anyhow = "1"
chrono = "0.4"
cpal = "0.15"
crossterm = "0.28"
dirs = "5"
fastrand = "2"
log = "0.4"
parking_lot = "0.12"
ratatui = "0.29"
rustfft = "6"
serde = { version = "1", features = ["derive"] }
serde_json = "1"
