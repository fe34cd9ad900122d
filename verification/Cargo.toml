[package]
name = "crm"
version = "0.1.0"
edition = "2021"
publish = false

[dependencies]
anyhow = "=1.0.104"
chrono = { version = "=0.4.45", default-features = false, features = ["clock", "std", "serde"] }
fake = "*"
jwt-simple = { version = "=0.12.17", default-features = false, features = ["pure-rust"] }
prost-types = "=0.13.5"
serde = { version = "=1.0.229", features = ["derive"] }
serde_json = "=1.0.154"
serde_yaml = "=0.9.34"
sqlx = { version = "0.8", default-features = false, features = ["postgres", "runtime-tokio"] }
sqlx-db-tester = "*"
tokio = { version = "=1.54.1", features = ["sync", "rt", "macros"] }
tonic = { version = "=0.12.3", default-features = false }
uuid = { version = "=1.29.1", features = ["v4"] }
