[package]
name = "db_wrap"
version = "0.1.0"
edition = "2021"
publish = false

[dependencies]
anyhow = "=1.0.104"
hex = "=0.4.3"
parking_lot = "=0.12.5"
rocket = { version = "0.5", features = ["json"] }
rocksdb = "=0.25.0"
serde = { version = "=1.0.229", features = ["derive"] }
serde_json = "=1.0.154"
sha2 = "=0.8.2"
toml = "=1.1.8"
