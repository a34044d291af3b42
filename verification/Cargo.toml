[package]
name = "qrshare"
version = "0.1.0"
edition = "2021"
publish = false

[dependencies]
qrcodegen = "1.8"
rand = "0.8"
hyper = { version = "0.14", features = ["http1", "server", "tcp"] }
tokio = { version = "1", features = ["rt-multi-thread", "macros", "net", "fs", "io-util"] }
image = "0.24"
