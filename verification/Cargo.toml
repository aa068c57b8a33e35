[package]
name = "chat_sync"
version = "0.1.0"
edition = "2021"
publish = false

[dependencies]
futures = "0.3"
log = "0.4"
tokio = { version = "1", features = ["macros", "rt", "sync", "time"] }
uuid = "1"
