[package]
name = "google_apis"
version = "0.1.0"
edition = "2021"
publish = false

[dependencies]
hyper = { version = "0.14", features = ["client", "http1", "http2", "tcp"] }
hyper-rustls = "0.22"
mime = "0.3"
serde = { version = "1", features = ["derive"] }
serde_json = "1"
url = "1.7"
yup-oauth2 = "5"
