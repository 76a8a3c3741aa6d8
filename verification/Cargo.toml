[package]
name = "sso"
version = "0.1.0"
edition = "2021"
publish = false

[dependencies]
argon2 = { version = "=0.5.3", features = ["std"] }
async-trait = "0.1"
axum = "=0.7.9"
chrono = "=0.4.45"
diesel = { version = "=2.2.12", features = ["postgres", "chrono", "uuid"] }
diesel-async = { version = "=0.5.2", features = ["postgres", "deadpool"] }
dotenv = "0.15"
email_address = "=0.2.9"
jsonwebtoken = "=9.3.1"
lettre = "=0.11.23"
redis = { version = "=0.25.5", features = ["tokio-comp", "connection-manager"] }
serde = { version = "1", features = ["derive"] }
serde_json = "=1.0.154"
thiserror = "1"
tokio = { version = "1", features = ["full"] }
tower = { version = "0.4", features = ["util"] }
tower-http = { version = "0.5", features = ["fs", "trace"] }
tracing = "0.1"
tracing-subscriber = { version = "0.3", features = ["env-filter"] }
url = "=2.5.8"
uuid = { version = "=1.29.0", features = ["serde"] }
