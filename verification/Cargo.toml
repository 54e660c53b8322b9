[package]
name = "blog_store"
version = "0.1.0"
edition = "2021"
publish = false

[dependencies]
axum = "*"
http = "*"
serde = { version = "*", features = ["derive"] }
tokio = { version = "*", features = ["macros", "rt-multi-thread", "net"] }
tower-http = { version = "*", features = ["cors"] }
