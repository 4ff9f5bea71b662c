[package]
name = "nv2_engine"
version = "0.1.0"
edition = "2021"
publish = false

[dependencies]
serde = { version = "1", features = ["derive"] }
serde_json = "1"
libloading = "0.8"
log = "0.4"
rand = "0.8"
ndarray = { version = "0.15", features = ["serde"] }
opensimplex2 = "*"
reqwest = { version = "0.11", default-features = false, features = ["json"] }
tokio = { version = "1", features = ["rt"] }
anyhow = "1"
cgmath = "0.18"
