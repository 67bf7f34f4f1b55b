[package]
name = "msgapi"
version = "0.1.0"
edition = "2021"
publish = false

[dependencies]
crypto_box = "=0.9.1"
reqwest = { version = "=0.11.27", default-features = false, features = ["blocking"] }

[dev-dependencies]
data-encoding = "*"
