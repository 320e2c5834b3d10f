[package]
name = "kon"
version = "0.1.0"
edition = "2021"
publish = false

[dependencies]
regex = "1"
feed-rs = "*"
tokio = { version = "1", features = ["macros", "rt-multi-thread", "time"] }
reqwest = { version = "0.12", default-features = false, features = ["rustls-tls"] }
bb8-redis = "*"
poise = "0.6"
