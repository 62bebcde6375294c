[package]
name = "microblog"
version = "0.1.0"
edition = "2021"
publish = false

[dependencies]
chrono = "0.4"
serde = { version = "1", features = ["derive"] }
axum = "0.6"
axum-extra = { version = "0.7", features = ["cookie-signed"] }
tokio = { version = "1", features = ["macros", "rt-multi-thread"] }
tower-http = { version = "0.4", features = ["trace", "fs"] }
tracing = "0.1"
tracing-subscriber = "0.3"
minijinja = { version = "2", features = ["loader"] }
urlencoding = "2"
