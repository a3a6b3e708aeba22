[package]
name = "train_viewer"
version = "0.1.0"
edition = "2021"
publish = false

[dependencies]
anyhow = "=1.0.104"
async-graphql = "=7.2.1"
async-graphql-axum = "=7.2.1"
axum = "=0.8.9"
base64 = "=0.23.1"
csv = "=1.4.0"
dotenv = "=0.15.0"
env_logger = "=0.11.11"
flate2 = "=1.1.10"
futures = "=0.3.34"
log = "=0.4.35"
md5 = "=0.8.1"
quick-xml = { version = "=0.42.0", features = ["serialize"] }
rdkafka = "=0.39.0"
s3 = "=0.1.20"
# s3 0.1.20 pulls in reqx as its HTTP transport; held at 0.1.25, the oldest release s3 accepts,
# because later ones need a newer rustc than the one that builds this crate.
reqx = { version = "=0.1.25", default-features = false }
reqwest = { version = "=0.12.28", default-features = false, features = ["rustls-tls", "blocking"] }
serde = { version = "=1.0.229", features = ["derive"] }
serde_json = "=1.0.154"
sqlx = { version = "=0.9.0", features = ["runtime-tokio", "postgres", "sqlite"] }
tokio = { version = "=1.54.1", features = ["full"] }
tokio-cron-scheduler = { version = "=0.15.1", features = ["signal"] }
zip = "=9.2.2"

[dev-dependencies]
fixed_width = "*"
