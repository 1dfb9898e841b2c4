[package]
name = "nmos_core"
version = "0.1.0"
edition = "2021"
publish = false

[dependencies]
base64 = "0.22"
chrono = "0.4"
http = "0.2"
hyper = "0.14"
percent-encoding = "2"
regex = "1"
serde = { version = "1", features = ["derive"] }
serde_json = "1"
slog = "2"
tokio = { version = "1", features = ["full"] }
url = "2"
warp = "0.3"
