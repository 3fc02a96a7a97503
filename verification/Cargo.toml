[package]
name = "timeline"
version = "0.1.0"
edition = "2021"
publish = false

[dependencies]
anyhow = "=1.0.104"
async-stream = "=0.3.6"
axum = "=0.7.9"
axum-embed = "=0.1.0"
chrono = { version = "=0.4.45", default-features = false, features = ["std", "clock", "serde"] }
clap = { version = "=4.5.61", features = ["derive"] }
futures-core = "=0.3.34"
futures-util = "=0.3.34"
maud = { version = "=0.26.0", features = ["axum"] }
once_cell = "=1.21.4"
openidconnect = { version = "=3.5.0", default-features = false, features = ["reqwest", "rustls-tls"] }
pretty_date = "=0.1.2"
reqwest = { version = "=0.11.27", default-features = false, features = ["json", "rustls-tls"] }
rust-embed = "=8.9.0"
serde = { version = "=1.0.229", features = ["derive"] }
serde_json = "=1.0.154"
sqlx = { version = "=0.7.4", default-features = false, features = ["postgres", "runtime-tokio", "chrono"] }
thiserror = "=1.0.69"
tokio = { version = "=1.50.0", features = ["full"] }
toml = "=0.8.23"
tower-cookies = { version = "=0.10.0", features = ["private"] }
tower-http = { version = "=0.5.2", features = ["trace"] }
tracing = "=0.1.44"
url = "=2.5.8"
