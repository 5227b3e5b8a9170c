[package]
name = "garage_rfid"
version = "0.1.0"
edition = "2021"
publish = false

[dependencies]
actix-rt = "=2.15.0"
bus = "=2.4.1"
chrono = { version = "=0.4.45", features = ["serde"] }
config = "=0.15.27"
diesel = { version = "=2.3.14", features = ["sqlite", "r2d2", "chrono"] }
futures = "=0.3.34"
gotham = "=0.8.1"
gotham_derive = "=0.8.1"
hyper = "=1.12.0"
mime = "=0.3.17"
mio = { version = "=0.8.11", features = ["os-poll"] }
r2d2 = "=0.8.10"
serde = { version = "=1.0.229", features = ["derive"] }
serde_json = "=1.0.154"
slack-hook = { version = "=0.9.1", features = ["blocking"] }
slog = "=2.8.2"
slog-async = "=2.8.0"
slog-term = "=2.9.2"
sysfs_gpio = { version = "=0.6.2", features = ["async-tokio"] }
tokio = { version = "=1.54.1", features = ["rt", "net"] }
uuid = { version = "=1.29.0", features = ["v4"] }
webthing = "=0.15.2"
