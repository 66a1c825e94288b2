[package]
name = "pylon"
version = "0.1.0"
edition = "2021"
publish = false

[dependencies]
actix-web = { version = "4", default-features = false, features = ["macros"] }
actix-ws = "0.3"
bytes = "1"
chrono = "0.4"
env_logger = "0.11"
futures-util = "0.3"
log = "0.4"
mime_guess = "2"
notify = "6"
reqwest = { version = "0.12", default-features = false, features = ["json", "stream"] }
serde = { version = "1", features = ["derive"] }
serde_json = "1"
serde_yaml = "0.9"
thiserror = "1"
tokio = { version = "1", features = ["rt-multi-thread", "macros", "sync", "time", "net"] }
url = "2"
uuid = { version = "1", features = ["v4"] }
