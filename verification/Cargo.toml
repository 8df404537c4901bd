[package]
name = "etcd"
version = "0.1.0"
edition = "2021"
publish = false

[dependencies]
futures = "0.3"
http = "0.2"
hyper = { version = "0.14", features = ["client", "http1", "tcp"] }
hyper-tls = "0.5"
serde = "1"
serde_derive = "1"
serde_json = "1"
tokio = { version = "1", features = ["time"] }
url = "2"
