[package]
name = "oauth_core"
version = "0.1.0"
edition = "2021"
publish = false

[dependencies]
sha2 = "=0.10.9"
base64 = "=0.22.1"
hex = "=0.4.3"
jsonwebtoken = "=9.3.1"
rand = "=0.9.5"
uuid = { version = "=1.29.0", features = ["v4", "serde"] }
chrono = { version = "=0.4.45", features = ["serde"] }
serde = { version = "=1.0.229", features = ["derive"] }
serde_json = { version = "=1.0.154", features = ["preserve_order"] }
actix-web = { version = "=4.18.1", default-features = false, features = ["macros"] }
actix-cors = "=0.7.2"
sqlx = { version = "=0.8.6", default-features = false, features = ["postgres", "runtime-tokio", "uuid", "chrono", "json", "derive"] }
deadpool-redis = "=0.23.1"
reqwest = { version = "=0.12.28", default-features = false, features = ["json"] }
dotenv = "=0.15.0"
env_logger = "=0.11.11"

[dev-dependencies]
rsa = "=0.9.10"
