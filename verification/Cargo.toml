[package]
name = "cleaker"
version = "0.1.0"
edition = "2021"
publish = false

[dependencies]
reqwest = { version = "0.11", default-features = false, features = ["blocking"] }
serde_json = "1"
serde = { version = "1", features = ["derive"] }
clap = { version = "4", features = ["derive"] }
dotenv = "0.15"
env_logger = "0.10"
log = "0.4"
thiserror = "1"

[dev-dependencies]
tiny_http = "0.12"
