[package]
name = "pos_backend"
version = "0.1.0"
edition = "2021"
publish = false

[dependencies]
bcrypt = "=0.19.3"
sha2 = "=0.11.1"
hex = "=0.4.3"
rand = "=0.10.3"
uuid = { version = "=1.29.0", features = ["v4", "v7"] }
chrono = "=0.4.45"
jsonwebtoken = "=9.3.1"
serde_json = { version = "=1.0.154", features = ["preserve_order"] }
serde = { version = "=1.0.229", features = ["derive"] }
thiserror = "=2.0.21"
async-trait = "=0.1.92"
tokio = { version = "=1.54.1", features = ["full"] }
axum = "=0.8.9"
sqlx = { version = "=0.9.0", default-features = false, features = ["runtime-tokio", "sqlite", "chrono", "uuid"] }
lettre = { version = "=0.11.23", default-features = false, features = ["builder", "smtp-transport", "tokio1", "tokio1-rustls-tls", "hostname"] }
clap = { version = "=4.6.7", features = ["derive", "env"] }
dotenvy = "=0.15.7"
tracing = "=0.1.44"
tower-http = { version = "=0.7.1", features = ["cors"] }
tower_governor = "=0.8.0"
utoipa = { version = "=6.0.0", features = ["axum_extras", "chrono", "uuid"] }
utoipa-axum = "=0.3.0"
sea-query = "=1.0.2"
