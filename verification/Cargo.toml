[package]
name = "tls_listener"
version = "0.1.0"
edition = "2021"
publish = false

[dependencies]
rustls = { version = "0.23", default-features = false, features = ["ring", "std", "tls12"] }
tokio-rustls = { version = "0.26", default-features = false, features = ["ring", "tls12"] }
tokio = { version = "1", features = ["io-util", "fs", "net", "rt", "time"] }
serde = { version = "1", features = ["derive"] }

[dev-dependencies]
rcgen = "0.13"
