[package]
name = "discord_bot"
version = "0.1.0"
edition = "2021"
publish = false

[dependencies]
serde = { version = "*", features = ["derive"] }
serde_json = "*"
fastrand = "*"
tokio = { version = "*", features = ["macros", "rt-multi-thread", "net", "time", "sync", "signal"] }
tokio-tungstenite = "*"
futures-util = "*"
reqwest = { version = "*", default-features = false, features = ["json", "query"] }
dotenv = "*"
