[package]
name = "propolis"
version = "0.1.0"
edition = "2021"
publish = false

[dependencies]
aho-corasick = "0.7"
markdown = "0.3"
argon2 = "0.5"
serde_json = "1"
serde = { version = "1", features = ["derive"] }
rand = "0.8"
base64 = "0.21"
qrcode = "0.12"
timediff = "0.2"
chrono = "0.4"
anyhow = "1"
async-trait = "0.1"
tokio = { version = "1", features = ["rt-multi-thread", "macros", "time"] }
sqlx = { version = "0.7", features = ["runtime-tokio", "sqlite"] }
axum = { version = "0.6", features = ["headers"] }
maud = { version = "0.25", features = ["axum"] }
tower-cookies = "0.9"
tower-http = { version = "0.4", features = ["trace", "compression-gzip"] }
http = "0.2"
tracing = "0.1"
tracing-subscriber = { version = "0.3", features = ["env-filter"] }
clap = { version = "4", features = ["derive", "env"] }
uuid = { version = "1", features = ["v4"] }
mime_guess = "2"
once_cell = "1"
openai = "*"
