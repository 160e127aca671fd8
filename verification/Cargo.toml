[package]
name = "bent"
version = "0.1.0"
edition = "2021"
publish = false

[dependencies]
jsonwebtoken = "=9.3.1"
serde = { version = "=1.0.229", features = ["derive"] }
serde_json = "=1.0.154"
uuid = { version = "=1.29.0", features = ["v4", "serde"] }
sha2 = "=0.10.9"
hex = "=0.4.3"
argon2 = "=0.5.3"
rand = "=0.9.5"
chrono = { version = "=0.4.45", features = ["serde"] }
axum = "=0.8.9"
tokio = { version = "=1.54.1", features = ["full"] }
sqlx = { version = "=0.8.6", default-features = false, features = ["postgres", "runtime-tokio", "chrono", "uuid", "migrate"] }
tower-http = { version = "=0.6.11", features = ["cors"] }
http = "=1.5.0"
dotenvy = "=0.15.7"
tracing = "=0.1.44"
tracing-subscriber = "=0.3.23"
thiserror = "=2.0.21"
log = "=0.4.35"
reqwest = { version = "=0.12.28", default-features = false, features = ["json", "rustls-tls"] }
teloxide = { version = "=0.13.0", default-features = false, features = ["rustls", "ctrlc_handler"] }
# Not used directly: holds teloxide's dependency takecell at 0.1.1, since 0.1.2
# needs a newer rustc than the toolchain this crate is built with.
takecell = "=0.1.1"
