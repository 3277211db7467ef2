[package]
name = "time_banner"
version = "0.1.0"
edition = "2021"
publish = false

[dependencies]
axum = "0.8"
chrono = "0.4"
dotenvy = "*"
envy = "*"
ico = "*"
lazy_static = "1"
resvg = "*"
serde = { version = "1", features = ["derive"] }
tera = "1"
timeago = "*"
tokio = { version = "1", features = ["full"] }
tracing = "0.1"
tracing-subscriber = "0.3"
