[package]
name = "sp_engine"
version = "0.1.0"
edition = "2021"
publish = false

[dependencies]
tiberius = { version = "=0.12.3", default-features = false, features = ["tds73"] }
base64 = "=0.23.1"
axum = { version = "*", features = ["multipart"] }
tokio = { version = "*", features = ["full"] }
bb8 = "*"
bb8-tiberius = "*"
ollama-rs = "*"
reqwest = { version = "=0.13.5", default-features = false, features = ["json", "form"] }
serde = { version = "*", features = ["derive"] }
serde_json = "*"
futures-util = "*"
tower-http = { version = "*", features = ["cors"] }
dotenv = "*"
tracing-subscriber = { version = "*", features = ["env-filter"] }
