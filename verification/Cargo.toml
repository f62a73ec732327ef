[package]
name = "wire_img"
version = "0.1.0"
edition = "2021"
publish = false

[dependencies]
image = { version = "*", default-features = false, features = ["png", "jpeg"] }
anyhow = "*"
axum = "*"
dotenv = "*"
notify = "*"
serde = { version = "*", features = ["derive"] }
tokio = { version = "*", features = ["macros", "rt-multi-thread", "sync", "fs", "io-util", "net"] }
toml = "*"
tracing = "*"
tracing-subscriber = "*"
