[package]
name = "prior_notebook"
version = "0.1.0"
edition = "2021"
publish = false

[dependencies]
actix-cors = "=0.7.2"
actix-web = { version = "=4.18.1", default-features = false, features = ["macros"] }
aes-gcm = "=0.10.3"
anyhow = "=1.0.104"
argon2 = "=0.5.3"
async-trait = "=0.1.92"
chrono = { version = "=0.4.45", features = ["serde"] }
clap = { version = "=4.6.7", features = ["derive"] }
console = "=0.15.11"
dotenvy = "=0.15.7"
fastembed = { version = "=3.14.1", default-features = false, features = ["ort-load-dynamic", "online"] }
futures = "=0.3.34"
indicatif = "=0.17.11"
ipnetwork = "=0.20.0"
jsonwebtoken = "=9.3.1"
lopdf = "=0.34.0"
qdrant-client = { version = "=1.20.0", default-features = false, features = ["serde"] }
rand = "=0.8.8"
redis = { version = "=0.27.6", features = ["tokio-comp", "connection-manager"] }
regex = "=1.13.1"
reqwest = { version = "=0.12.28", default-features = false, features = ["json", "rustls-tls"] }
serde = { version = "=1.0.229", features = ["derive"] }
serde_json = "=1.0.154"
sha2 = "=0.10.9"
tokio = { version = "=1.54.1", features = ["full"] }
toml = "=0.8.23"
tracing = "=0.1.44"
tracing-subscriber = { version = "=0.3.23", features = ["env-filter"] }
urlencoding = "=2.1.3"
uuid = { version = "=1.29.0", features = ["v4", "v7", "serde"] }
