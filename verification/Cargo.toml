[package]
name = "purple_matrix_rust"
version = "0.1.0"
edition = "2021"
publish = false

[dependencies]
url = "=2.5.8"
matrix-sdk = { version = "=0.16.1", default-features = false, features = ["native-tls", "sqlite"] }
tokio = { version = "=1.53.2", features = ["rt-multi-thread", "macros", "time"] }
tiny_http = "=0.12.0"
keyring = { version = "=3.6.3", default-features = false, features = ["linux-native"] }
log = "=0.4.34"
