[package]
name = "model_keeper"
version = "0.1.0"
edition = "2021"
publish = false

[dependencies]
sha2 = "*"
command-group = "*"
tokio = { version = "*", features = ["full"] }
