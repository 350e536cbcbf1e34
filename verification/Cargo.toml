[package]
name = "hdnode"
version = "0.1.0"
edition = "2021"
publish = false

[dependencies]
anyhow = "=1.0.104"
ethnum = "=1.5.3"
hex = "=0.4.3"
hyper = { version = "=0.14.32", features = ["client", "http1", "tcp"] }
mlua = { version = "=0.8.10", features = ["lua54", "vendored", "serialize", "send"] }
rocket = { version = "=0.5.2", features = ["json"] }
serde = { version = "=1.0.229", features = ["derive"] }
serde_json = "=1.0.154"
thiserror = "=1.0.69"
tracing = "=0.1.44"
tracing-subscriber = "=0.3.23"
