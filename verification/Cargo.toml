[package]
name = "icon_reader"
version = "0.1.0"
edition = "2021"
publish = false

[dependencies]
anyhow = "1"
heck = "0.4"
tokio = { version = "1", default-features = false, features = ["fs", "rt"] }
tracing = { version = "0.1", default-features = false, features = ["std"] }
