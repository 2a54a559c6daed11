[package]
name = "connect_1password"
version = "0.1.0"
edition = "2021"
publish = false

[dependencies]
serde_json = "=1.0.151"
uuid = { version = "=1.27.0", features = ["v4"] }
hyper = { version = "=0.14.32", features = ["client", "http1", "http2", "runtime"] }
hyper-rustls = { version = "=0.24.2", features = ["http2"] }
tokio = { version = "=1.53.2", features = ["rt", "time", "net"] }
dotenv = "=0.15.0"
