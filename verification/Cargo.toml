[package]
name = "autocopy"
version = "0.1.0"
edition = "2021"
publish = false

[dependencies]
png = "0.17"
serde = { version = "1", features = ["derive"] }
serde_json = "1"
dirs = "5"
tray-icon = "*"
cocoa = "*"
core-foundation = "*"
core-graphics = "*"
