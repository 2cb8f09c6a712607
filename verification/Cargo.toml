[package]
name = "apollo_media_state"
version = "0.1.0"
edition = "2021"
publish = false

[dependencies]
anyhow = "1"
axum = "0.8"
base64 = "0.22"
env_logger = "0.11"
image = { version = "0.25", default-features = false, features = ["bmp", "gif", "ico", "jpeg", "png", "pnm", "qoi", "tga", "tiff", "webp"] }
log = "0.4"
md5 = "0.7"
reqwest = "0.12"
roxmltree = "*"
sendspin = "*"
serde = { version = "1", features = ["derive"] }
serde_json = "1"
tokio = { version = "1", features = ["full"] }
toml = "*"
tower-http = { version = "0.6", features = ["fs"] }
url = "2"
