[package]
name = "my_api"
version = "0.1.0"
edition = "2021"
publish = false

[dependencies]
axum = { version = "0.8.8", features = ["macros"] }
bcrypt = "*"
chrono = "*"
jsonwebtoken = { version = "10.3.0", default-features = false, features = ["rust_crypto"] }
mongodb = "3.5.0"
serde = { version = "1", features = ["derive"] }
tokio = { version = "1", features = ["macros", "rt-multi-thread", "net"] }
tower-http = { version = "*", features = ["cors"] }
