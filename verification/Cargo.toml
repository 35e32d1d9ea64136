[package]
name = "pollwake"
version = "0.1.0"
edition = "2021"
publish = false

[dependencies]
futures = "=0.1.31"
futures-timer = "=0.1.1"
rand = "=0.10.3"
void = "=1.0.2"

[dev-dependencies]
tokio-core = "=0.1.18"
