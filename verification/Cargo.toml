[package]
name = "astrid_sdk"
version = "0.7.1"
edition = "2021"
publish = false

[dependencies]
serde = { version = "=1.0.229", features = ["derive"] }
serde_json = "=1.0.154"
uuid = { version = "=1.29.0", features = ["v4"] }
borsh = "=1.8.1"
thiserror = "=2.0.21"
getrandom = "=0.4.3"
syn = { version = "=3.0.9", features = ["full"] }
