[package]
name = "shared_lib"
version = "0.1.0"
edition = "2021"
publish = false

[dependencies]
actix = "=0.13.5"
actix-codec = "=0.5.4"
actix-web = { version = "=4.18.1", default-features = false }
bytes = "=1.12.1"
rand = "=0.8.8"
serde_json = "=1.0.154"
tokio = { version = "=1.54.1", features = ["net", "io-util", "time"] }
tokio-util = { version = "=0.7.20", features = ["codec"] }
