[package]
name = "by_the_peoples"
version = "0.1.0"
edition = "2021"
publish = false

[dependencies]
zxcvbn = "=2.2.2"
argonautica = "=0.2.0"
jsonwebtoken = "=9.3.1"
ring = "=0.17.14"
tokio-postgres = "=0.7.18"
serde = { version = "=1.0.229", features = ["derive"] }
serde_json = { version = "=1.0.154", features = ["preserve_order"] }
actix-web = { version = "=4.18.1", default-features = false, features = ["macros"] }
actix-rt = "=2.15.0"
juniper = { version = "=0.16.2", default-features = false }
bb8 = "=0.8.6"
bb8-postgres = "=0.8.1"
listenfd = "=1.0.2"
async-trait = "=0.1.92"
redis = { version = "=0.25.5", default-features = false }
