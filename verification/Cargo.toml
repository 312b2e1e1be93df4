[package]
name = "http_relay"
version = "0.1.0"
edition = "2021"
publish = false

[dependencies]
url = "2"
urlencoding = "2"
actix-web = { version = "4", default-features = false, features = ["macros"] }
reqwest = { version = "0.12", default-features = false }
async-stream = "0.3"
futures-util = { version = "0.3", features = ["sink"] }
spin-sdk = "3"
