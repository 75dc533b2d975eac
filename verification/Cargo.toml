[package]
name = "dice_game"
version = "0.1.0"
edition = "2021"
publish = false

[dependencies]
rand = "0.8"
ulid = "1"
salvo = { version = "*", features = ["websocket", "session"] }
tokio = { version = "1", features = ["macros", "rt-multi-thread"] }
serde = { version = "1", features = ["derive"] }
serde_json = "1"
futures-util = "0.3"
thiserror = "2"
tracing = "0.1"
tracing-subscriber = "0.3"
