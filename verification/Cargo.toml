[package]
name = "kratestack_api"
version = "0.1.0"
edition = "2021"
publish = false

[dependencies]
axum = "=0.8.9"
serde = { version = "=1.0.229", features = ["derive"] }
tokio = { version = "=1.53.2", features = ["full"] }
tower = "*"
utoipa = "=6.0.0"
utoipa-swagger-ui = { version = "=10.0.1", features = ["axum", "vendored"] }
vercel_runtime = { version = "=2.4.1", features = ["axum"] }
