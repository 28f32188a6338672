[package]
name = "netmonitor"
version = "0.1.0"
edition = "2021"
publish = false

[dependencies]
reqwest = { version = "*", default-features = false, features = ["rustls-tls"] }
tokio = { version = "*", features = ["rt-multi-thread", "macros"] }
