[package]
name = "hoyo_daily"
version = "0.1.0"
edition = "2021"
publish = false

[dependencies]
url = "2"
serde = { version = "1", features = ["derive"] }
serde_json = "1"
log = "0.4"
env_logger = "0.11"
bytes = "1"
tokio = { version = "1", features = ["macros", "rt-multi-thread", "time", "fs"] }
reqwest = { version = "0.12", default-features = false, features = ["json", "cookies"] }
