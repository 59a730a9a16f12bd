[package]
name = "replay"
version = "0.1.0"
edition = "2021"
publish = false

[dependencies]
actix-web = "4"
clap = "4"
http-body-util = "0.1"
hyper = { version = "1", features = ["full"] }
hyper-util = { version = "0.1", features = ["full"] }
owo-colors = "4"
reqwest = "0.12"
serde = { version = "1", features = ["derive"] }
serde_json = { version = "1", features = ["preserve_order"] }
tokio = { version = "1", features = ["full"] }
