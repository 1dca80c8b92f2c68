[package]
name = "matrix_bot"
version = "0.1.0"
edition = "2021"
publish = false

[dependencies]
anyhow = "=1.0.104"
axum = "=0.6.20"
blurhash = "=0.2.3"
clap = { version = "=4.6.7", features = ["derive", "env"] }
image = "=0.24.9"
log = "=0.4.34"
matrix-sdk = { version = "=0.6.2", features = ["markdown"] }
mime_guess = "=2.0.5"
once_cell = "=1.21.4"
qbit-rs = "=0.3.8"
regex = "=1.13.1"
reqwest = { version = "=0.11.27", features = ["blocking", "json", "multipart"] }
serde = { version = "=1.0.229", features = ["derive"] }
serde_json = "=1.0.154"
tokio = { version = "=1.54.1", features = ["full"] }
toml = "=0.7.8"
tower-http = { version = "=0.4.4", features = ["validate-request", "auth"] }
url = "=2.5.8"
uuid = { version = "=1.29.0", features = ["v4"] }
walkdir = "=2.5.0"
