[package]
name = "mutants_lab"
version = "0.1.0"
edition = "2021"
publish = false

[dependencies]
anyhow = "1"
cp_r = "0.5"
path-slash = "0.1"
rand = "0.8"
serde = { version = "1", features = ["derive"] }
serde_json = "1"
tempfile = "3"
tracing = "0.1"
tracing-appender = "0.2"
tracing-subscriber = "0.3"
