[package]
name = "gentlepol"
version = "0.1.0"
edition = "2021"
publish = false

[dependencies]
bcrypt = "*"
uuid = { version = "*", features = ["v4"] }
chrono = "*"
serde = { version = "*", features = ["derive"] }
axum = "*"
axum-extra = { version = "*", features = ["cookie"] }
tokio = { version = "*", features = ["rt-multi-thread", "macros", "net"] }
