[package]
name = "vimeet"
version = "0.1.0"
edition = "2021"
publish = false

[dependencies]
actix = "0.13"
actix-files = "0.6"
actix-rt = "2"
actix-web = "4"
actix-web-actors = "4"
dotenv = "=0.15.0"
env_logger = "=0.7.1"
serde = { version = "=1.0.229", features = ["derive"] }
serde_json = "=1.0.154"
