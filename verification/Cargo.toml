[package]
name = "microscope"
version = "0.1.0"
edition = "2021"
publish = false

[dependencies]
serde = { version = "=1.0.229", features = ["derive"] }
postcard = { version = "=1.1.3", features = ["use-std"] }
serialport = { version = "=4.10.1", default-features = false }
clap = { version = "=4.6.7", features = ["derive"] }
serde_json = "=1.0.154"
chrono = { version = "=0.4.45", features = ["serde"] }
uuid = { version = "=1.29.1", features = ["v4"] }
heapless = "=0.8.0"
ratatui = "0.29"
