[package]
name = "ddd_rs"
version = "0.1.0"
edition = "2021"
publish = false

[dependencies]
uuid = { version = "=1.27.0", features = ["v4"] }
syn = "=2.0.119"

[dev-dependencies]
chrono = "=0.4.45"
downcast-rs = "=1.2.1"
