[package]
name = "provision"
version = "0.1.0"
edition = "2021"
publish = false

[dependencies]
anyhow = "1"
serde = { version = "1", features = ["derive"] }
serde_yaml = "0.8"
tera = "1"
tracing = "0.1"
which = "4"
