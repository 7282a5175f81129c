[package]
name = "transfer_stats"
version = "0.1.0"
edition = "2021"
publish = false

[dependencies]
rand = "0.8"
serde = { version = "1", features = ["derive"] }
clickhouse = "*"
actix-web = "4"
anyhow = "1"
dotenv = "0.15"
envy = "0.4"
env_logger = "*"
