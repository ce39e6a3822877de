[package]
name = "task_management_app"
version = "0.1.0"
edition = "2021"
publish = false

[dependencies]
jsonwebtoken = "=9.3.1"
bcrypt = "=0.15.1"
chrono = "=0.4.45"
serde = { version = "=1.0.229", features = ["derive"] }
serde_json = { version = "=1.0.154", features = ["preserve_order"] }
axum = "=0.7.9"
tokio = { version = "=1.54.1", features = ["full"] }
sqlx = { version = "=0.7.4", default-features = false, features = ["sqlite", "runtime-tokio"] }
dotenvy = "=0.15.7"
tracing = "=0.1.44"
tracing-subscriber = { version = "=0.3.23", features = ["env-filter"] }
leptos = { version = "0.6", features = ["ssr"] }
leptos_router = { version = "0.6", features = ["ssr"] }
leptos_axum = "0.6"
reqwest = { version = "0.12", default-features = false, features = ["json", "rustls-tls"] }
