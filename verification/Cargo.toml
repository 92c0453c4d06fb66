[package]
name = "impossible_bot"
version = "0.1.0"
edition = "2021"
publish = false

[dependencies]
serenity = { version = "0.10", features = ["unstable_discord_api"] }
mongodb = "2"
tokio = { version = "1", features = ["macros", "rt-multi-thread"] }
chrono = "0.4"
dotenv = "0.15"
env_logger = "0.9"
log = "0.4"
serde = { version = "1", features = ["derive"] }
