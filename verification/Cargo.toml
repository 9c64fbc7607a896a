[package]
name = "vnt-hub"
version = "1.0.0"
edition = "2021"
publish = false

[dependencies]
anyhow = "1"
argon2 = { version = "0.5", features = ["std"] }
axum = { version = "0.6", features = ["ws"] }
base64 = "0.22"
chacha20poly1305 = "0.10"
chrono = "0.4"
clap = { version = "4", features = ["derive"] }
futures-util = "0.3"
hex = "0.4"
hyper = { version = "0.14", features = ["server", "http1"] }
log = "0.4"
log4rs = { version = "1", default-features = false, features = ["console_appender", "file_appender", "config_parsing", "yaml_format"] }
rand = "0.8"
rcgen = "0.13"
rustls-pemfile = "2"
serde = { version = "1", features = ["derive"] }
serde_json = "1"
sha2 = "0.10"
sqlx = { version = "0.7", default-features = false, features = ["runtime-tokio", "sqlite"] }
tokio = { version = "1", features = ["full"] }
tokio-rustls = "0.25"
tokio-stream = { version = "0.1", features = ["sync"] }
uuid = { version = "1", features = ["v4"] }
