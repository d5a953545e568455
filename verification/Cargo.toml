[package]
name = "model_select"
version = "0.1.0"
edition = "2021"
publish = false

[dependencies]
chrono = "*"
crossterm = "*"
once_cell = "*"
parking_lot = "*"
ratatui = "*"
serde = { version = "*", features = ["derive"] }
serde_json = "*"
