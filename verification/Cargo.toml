[package]
name = "image_server"
version = "0.1.0"
edition = "2021"
publish = false

[dependencies]
actix-web = "4"
redis = { version = "*", features = ["tokio-comp"] }
tokio = { version = "1", features = ["rt", "fs", "macros"] }
