[package]
name = "transcription_starter"
version = "0.1.0"
edition = "2021"
publish = false

[dependencies]
axum = { version = "0.8", features = ["multipart"] }
chrono = "0.4"
deepgram = "*"
dotenv = "0.15"
dotenvy = "0.15"
hex = "0.4"
jsonwebtoken = "9"
rand = "0.8"
reqwest = { version = "0.12", default-features = false, features = ["json", "rustls-tls"] }
rocket = { version = "0.5", features = ["json"] }
serde = { version = "1", features = ["derive"] }
serde_json = "1"
serde_urlencoded = "0.7"
tokio = { version = "1", features = ["macros", "net", "rt-multi-thread"] }
toml = "0.8"
tower-http = { version = "0.6", features = ["cors"] }
