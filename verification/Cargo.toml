[package]
name = "remotefs"
version = "0.1.0"
edition = "2021"
publish = false

[dependencies]
uuid = { version = "*", features = ["v4"] }
dirs = "*"
num_cpus = "*"
tokio = { version = "*", features = ["rt-multi-thread", "macros", "net", "time", "sync", "io-util", "signal"] }
tokio-tungstenite = "*"
futures = "*"
serde = { version = "*", features = ["derive"] }
toml = "*"
