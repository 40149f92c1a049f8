[package]
name = "post_service"
version = "0.1.0"
edition = "2021"
publish = false

[dependencies]
actix-web = "4"
serde = { version = "1", features = ["derive"] }
thiserror = "1"
tracing = "0.1"
tracing-actix-web = "0.7"
tracing-panic = "0.1"
tracing-subscriber = { version = "0.3", features = ["fmt", "json"] }
