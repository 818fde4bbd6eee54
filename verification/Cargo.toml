[package]
name = "dev_https_server"
version = "0.1.0"
edition = "2021"
publish = false

[dependencies]
hyper = { version = "0.14", features = ["full"] }
mime_guess = "2"
rcgen = "0.11"
rustls = "0.21"
rustls-pemfile = "1"
tokio = { version = "1", features = ["full"] }
tokio-rustls = "0.24"
tokio-util = { version = "0.7", features = ["io"] }
