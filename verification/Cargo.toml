[package]
name = "cch24"
version = "0.1.0"
edition = "2021"
publish = false

[dependencies]
anyhow = "1"
async-trait = "0.1"
axum = { version = "0.7", features = ["multipart"] }
axum-extra = { version = "0.9", features = ["cookie"] }
cargo-manifest = "0.17"
html-escape = "0.2"
indoc = "2"
jsonwebtoken = "9"
leaky-bucket = "1"
rand = "0.8"
serde = { version = "1", features = ["derive"] }
serde_json = "1"
serde_yaml = "0.9"
shuttle-axum = "0.49"
shuttle-persist = "0.49"
shuttle-runtime = "0.49"
shuttle-shared-db = { version = "0.49", features = ["postgres", "sqlx"] }
sqlx = { version = "0.8", default-features = false, features = ["chrono", "macros", "migrate", "postgres", "runtime-tokio", "uuid"] }
tokio = { version = "1", features = ["sync"] }
toml = "0.8"
tower-http = { version = "0.6", features = ["trace"] }
tracing = "0.1"
