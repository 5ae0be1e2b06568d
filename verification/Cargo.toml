[package]
name = "huawei-obs-client"
version = "0.1.0"
edition = "2021"
publish = false

[dependencies]
aws-config = "=1.13.0"
aws-sdk-s3 = "=1.157.0"
base64 = "=0.22.1"
bytes = "=1.12.1"
chrono = "=0.4.45"
md-5 = "=0.10.6"
reqwest = { version = "=0.12.28", default-features = false, features = ["rustls-tls"] }
rust-s3 = { version = "=0.36.0", default-features = false, features = ["fail-on-err", "tags", "tokio-rustls-tls"] }
serde = { version = "=1.0.229", features = ["derive"] }
thiserror = "=1.0.69"
tokio = { version = "=1.54.1", features = ["rt-multi-thread", "macros", "io-util"] }
