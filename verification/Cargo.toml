[package]
name = "pbar"
version = "0.1.0"
edition = "2021"
publish = false

[dependencies]
actix-web = { version = "4", default-features = false, features = ["macros"] }
anyhow = "1"
clap = { version = "4", features = ["derive"] }
env_logger = "0.10"
log = "0.4"
minijinja = { version = "0.30", features = ["source"] }
serde = { version = "1", features = ["derive"] }
serde_json = "1"
