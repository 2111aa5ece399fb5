[package]
name = "https_wrapper"
version = "0.1.0"
edition = "2021"
publish = false

[dependencies]
clap = { version = "*", features = ["derive"] }
openssl = "*"
rustls-pemfile = "*"
rustls-pki-types = "*"
tokio = { version = "*", features = ["rt-multi-thread", "net", "io-util", "macros"] }
tokio-rustls = { version = "*", default-features = false, features = ["ring", "logging", "tls12"] }
