[package]
name = "iterm2-client"
version = "0.2.0"
edition = "2021"
publish = false

[dependencies]
futures-util = { version = "0.3", features = ["sink"] }
thiserror = "2"
tokio = { version = "1", features = ["net", "sync", "time", "rt", "macros", "io-util"] }
tokio-tungstenite = "*"
