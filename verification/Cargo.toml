[package]
name = "anyhttp"
version = "0.1.0"
edition = "2021"
publish = false

[dependencies]
anyhow = "*"
async-trait = "*"
bytes = "*"
futures = "*"
http = "=1.5.0"
http-body-util = "*"
reqwest = { version = "=0.13.5", default-features = false, features = ["stream"] }
tokio = { version = "*", features = ["rt", "macros"] }
url = "=2.5.8"
