[package]
name = "blog_api"
version = "0.1.0"
edition = "2021"
publish = false

[dependencies]
axum = "*"
deadpool-postgres = "*"
dotenvy = "*"
serde = { version = "*", features = ["derive"] }
tokio = { version = "*", features = ["rt-multi-thread", "macros", "net"] }
tokio-postgres = { version = "*", features = ["with-uuid-1"] }
tower-http = { version = "*", features = ["cors"] }
uuid = "*"
