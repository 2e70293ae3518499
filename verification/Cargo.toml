[package]
name = "octoapp"
version = "0.1.0"
edition = "2021"
publish = false

[dependencies]
hex = "=0.4.3"
hmac = "=0.12.1"
sha2 = "=0.10.9"
jsonwebtoken = "=9.3.1"
octocrab = "=0.41.2"
tokio = { version = "=1.53.2", features = ["rt-multi-thread", "net", "macros", "time"] }
hyper = { version = "=1.12.0", features = ["server", "http1"] }
hyper-util = { version = "=0.1.21", features = ["tokio"] }
http-body-util = "=0.1.5"
