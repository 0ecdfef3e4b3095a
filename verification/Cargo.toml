[package]
name = "activity_auth"
version = "0.1.0"
edition = "2021"
publish = false

[dependencies]
bcrypt = "0.15"
chrono = "0.4"
jsonwebtoken = "9"
mongodb = "3"
rand = "0.8"
serde = { version = "1", features = ["derive"] }
serde_json = "1"
uuid = { version = "1", features = ["v4"] }
axum = "0.7"
axum-extra = { version = "0.9", features = ["cookie-private"] }
reqwest = { version = "0.12", default-features = false, features = ["json", "rustls-tls"] }
tokio = { version = "1", features = ["macros", "rt-multi-thread"] }
time = "0.3"
futures = "0.3"
dotenv = "0.15"
tower-http = { version = "0.5", features = ["cors"] }
