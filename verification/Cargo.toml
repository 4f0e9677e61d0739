[package]
name = "tasksync"
version = "0.1.0"
edition = "2021"
publish = false

[dependencies]
tokio = { version = "*", features = ["macros", "rt-multi-thread", "sync", "time", "net"] }
axum = { version = "*", features = ["ws"] }
serde = { version = "*", features = ["derive"] }
serde_json = "*"
chrono = { version = "*", features = ["serde"] }
uuid = { version = "*", features = ["v4", "serde"] }
futures-util = "*"
thiserror = "*"
url = "*"
secrecy = "*"
tracing = "*"
reqwest = { version = "*", default-features = false, features = ["json"] }
tokio-tungstenite = "*"
