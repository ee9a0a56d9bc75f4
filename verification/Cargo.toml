[package]
name = "orbok"
version = "0.1.0"
edition = "2021"
publish = false

[dependencies]
sha2 = "=0.10.9"
uuid = { version = "=1.29.0", features = ["v7"] }
lopdf = "=0.46.0"
serde = { version = "=1.0.229", features = ["derive"] }
dirs = "=7.0.0"
tokio = { version = "=1.54.1", features = ["fs", "io-util", "rt-multi-thread", "macros"] }
futures = "=0.3.34"
reqwest = { version = "=0.12.28", default-features = false, features = ["rustls-tls", "stream"] }
time = { version = "0.3", features = ["formatting"] }
