[package]
name = "celeriant_integration_tests"
version = "0.1.0"
edition = "2021"
publish = false

[dependencies]
base64 = "0.22"
futures = "0.3"
hex = "0.4"
rand = "0.8"
rustls = { version = "0.23", default-features = false, features = ["ring", "std", "tls12"] }
rustls-pemfile = "2"
rustls-pki-types = "1"
tempfile = "3"
tokio = { version = "1", features = ["full"] }
tokio-postgres = "0.7"
