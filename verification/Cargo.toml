[package]
name = "acme_http01"
version = "0.1.0"
edition = "2021"
publish = false

[dependencies]
rcgen = "*"
instant-acme = "*"
serde_json = "*"
tokio = { version = "*", features = ["rt", "macros", "time"] }
