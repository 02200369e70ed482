[package]
name = "realworld_rust_actix_web"
version = "0.1.0"
edition = "2021"
publish = false

[dependencies]
actix-cors = "*"
actix-web = "4"
bcrypt = "=0.19.3"
chrono = "0.4"
derive_more = { version = "*", features = ["display", "error", "from"] }
dotenvy = "*"
env_logger = "*"
futures = "0.3"
jsonwebtoken = { version = "=11.1.0", features = ["rust_crypto"] }
log = "0.4"
serde = { version = "1", features = ["derive"] }
serde_json = "=1.0.151"
slugify = "=0.1.0"
sqlx = { version = "0.8", features = ["mysql", "runtime-tokio", "chrono"] }
