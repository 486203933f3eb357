[package]
name = "adsbee"
version = "0.1.0"
edition = "2021"
publish = false

[dependencies]
axum = "=0.8.9"
bytes = "=1.12.1"
derive_more = { version = "=2.1.1", features = ["debug"] }
nusb = "=0.1.14"
reqwest = { version = "=0.13.5", default-features = false }
serde = { version = "=1.0.229", features = ["derive"] }
serde_with = { version = "=3.24.0", default-features = false, features = ["macros"] }
thiserror = "=2.0.21"
tokio = { version = "=1.54.1", features = ["net", "rt-multi-thread", "macros"] }
tokio-util = "=0.7.20"
tracing = "=0.1.44"
