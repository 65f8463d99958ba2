[package]
name = "git_server"
version = "0.1.0"
edition = "2021"
publish = false

[dependencies]
flate2 = "1"
rocket = "0.5"
tokio = { version = "1", features = ["process", "io-util", "rt"] }

[dev-dependencies]
regex = "1"
