[package]
name = "http_hardening"
version = "0.1.0"
edition = "2021"
publish = false

[dependencies]
axum = { version = "0.6", default-features = false }
http = "0.2"
tower-http = { version = "0.4", default-features = false, features = ["cors"] }

[dev-dependencies]
tokio = { version = "1", default-features = false, features = ["rt"] }
tower = { version = "0.4", default-features = false, features = ["util"] }
