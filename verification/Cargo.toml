[package]
name = "bevy_rcon"
version = "0.1.0"
edition = "2021"
publish = false

[dependencies]
axum = "=0.8.9"
serde = { version = "1", features = ["derive"] }
