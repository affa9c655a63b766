[package]
name = "api"
version = "0.1.0"
edition = "2021"
publish = false

[dependencies]
actix = "=0.13.5"
actix-cors = "=0.7.2"
actix-web = "=4.18.1"
actix-web-actors = "=4.3.1"
async-trait = "=0.1.92"
chrono = "=0.4.45"
dotenv = "=0.15.0"
log = "=0.4.35"
meilisearch-sdk = "0.27"
once_cell = "=1.21.4"
rand = "=0.8.8"
redis = { version = "=0.25.5", default-features = false }
reqwest = { version = "=0.12.28", default-features = false, features = ["rustls-tls"] }
serde = { version = "=1.0.229", features = ["derive"] }
serde_json = "=1.0.154"
tokio = { version = "=1.54.1", features = ["macros", "rt-multi-thread", "time"] }

[dev-dependencies]
regex = "=1.13.1"
