[package]
name = "kasou"
version = "0.1.0"
edition = "2021"
publish = false

[dependencies]
tokio = { version = "=1.54.1", default-features = false, features = ["sync"] }
serde = { version = "=1.0.229", features = ["derive"] }
thiserror = "=2.0.21"
tracing = "=0.1.44"
hostname = "=0.4.2"
objc2 = "=0.6.5"
objc2-foundation = "=0.3.2"
objc2-virtualization = "=0.3.2"
block2 = "=0.6.2"
dispatch2 = "=0.3.1"
sha2 = "0.10"
