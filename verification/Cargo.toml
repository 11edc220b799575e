[package]
name = "arcgis"
version = "0.1.0"
edition = "2021"
publish = false

[dependencies]
uuid = { version = "1", features = ["v4"] }
serde = { version = "1", features = ["derive"] }
serde_json = "1"
serde_urlencoded = "0.7"
reqwest = { version = "0.12", default-features = false, features = ["json", "multipart", "stream"] }
tokio = { version = "1", features = ["fs", "io-util", "time", "rt", "macros"] }
futures = "0.3"
bytes = "1"
tracing = "0.1"
