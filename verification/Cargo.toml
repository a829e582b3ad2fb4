[package]
name = "fractal"
version = "0.1.0"
edition = "2021"
publish = false

[dependencies]
matrix-sdk = { version = "=0.5.0", default-features = false, features = ["native-tls", "markdown"] }
mime = "=0.3.17"
mime_guess = "=2.0.5"
gettext-rs = { version = "=0.7.7", features = ["gettext-system"] }
futures = "=0.3.34"
once_cell = "=1.21.4"
lazy_static = "=1.5.1"
log = "=0.4.35"
tokio = { version = "=1.54.1", features = ["rt-multi-thread"] }
