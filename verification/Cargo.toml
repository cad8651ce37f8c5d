[package]
name = "counter_api"
version = "0.1.0"
edition = "2021"
publish = false

[dependencies]
actix-cors = "=0.7.2"
actix-web = "=4.15.0"
bcrypt = "=0.19.3"
chrono = "=0.4.45"
env_logger = "=0.11.11"
futures-util = "=0.3.34"
jsonwebtoken = { version = "=11.1.0", features = ["rust_crypto"] }
r2d2 = "=0.8.10"
r2d2_sqlite = "=0.35.0"
rusqlite = "=0.40.2"
serde = { version = "=1.0.229", features = ["derive"] }
serde_json = "=1.0.151"
