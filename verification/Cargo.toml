[package]
name = "weather_station"
version = "0.1.0"
edition = "2021"
publish = false

[dependencies]
rppal = "0.14"
crossbeam-channel = "0.5"
chrono = "0.4"
postgres = "0.19"
reqwest = { version = "0.11", default-features = false, features = ["blocking"] }
sysinfo = "0.16"
toml = "0.5"
serde = { version = "1", features = ["derive"] }
serde_json = "1"
hyper = { version = "0.14", features = ["server", "http1", "tcp"] }
tokio = { version = "1", features = ["full"] }
tokio-util = { version = "0.7", features = ["codec"] }
lazy_static = "1"
