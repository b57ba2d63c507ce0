[package]
name = "banki"
version = "0.1.0"
edition = "2021"
publish = false

[dependencies]
base64 = "0.22"
flate2 = "1"
rand = "0.8"
getrandom = "0.3"
chrono = "0.4"
ron = "0.8"
serde = { version = "1", features = ["derive"] }
lazy_static = "1"
