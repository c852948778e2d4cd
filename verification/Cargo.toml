[package]
name = "dbgate"
version = "0.1.0"
edition = "2021"
publish = false

[dependencies]
actix-web = "4"
bson = "2"
clap = { version = "4", features = ["derive"] }
futures = "0.3"
mongodb = "2"
serde = { version = "1", features = ["derive"] }
serde_json = "1"
serde_yaml = "0.9"
tokio = { version = "1", features = ["full"] }
tokio-postgres = "0.7"
