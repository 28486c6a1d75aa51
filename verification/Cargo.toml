[package]
name = "hubhook"
version = "0.1.0"
edition = "2021"
publish = false

[dependencies]
regex = "1"
hex = "0.4"
hmac = "0.12"
crypto-hashes = "0.10"
url = { version = "2", features = ["serde"] }
serde = { version = "1", features = ["derive"] }
serde_json = "1"
actix-web = { version = "4", default-features = false, features = ["macros"] }
futures = "0.3"
reqwest = { version = "0.11", default-features = false, features = ["json"] }
sentry = { version = "*", default-features = false }
sentry-actix = "*"
structopt = "0.3"
tracing = "0.1"
tracing-subscriber = "0.3"
