[package]
name = "z2p_axum"
version = "0.1.0"
edition = "2021"
publish = false

[dependencies]
validator = "*"
uuid = { version = "*", features = ["v4"] }
chrono = "*"
serde = { version = "*", features = ["derive"] }
tokio = { version = "*", features = ["rt-multi-thread", "net", "macros"] }
axum = "*"
sea-orm = { version = "*", features = ["sqlx-mysql", "runtime-tokio-rustls", "macros"] }
secrecy = "*"
config = "*"
