[package]
name = "tripo3d_sdk"
version = "0.1.0"
edition = "2021"
publish = false

[dependencies]
rand = "0.8"
reqwest = { version = "0.12", default-features = false, features = ["json", "multipart", "rustls-tls"] }
serde = { version = "1", features = ["derive"] }
serde_json = "1"
thiserror = "2"
tokio = { version = "1", features = ["time"] }
