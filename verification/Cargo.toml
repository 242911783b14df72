[package]
name = "cc_postgres"
version = "0.1.0"
edition = "2021"
publish = false

[dependencies]
axum = "*"
indexmap = { version = "*", features = ["serde"] }
serde = { version = "*", features = ["derive"] }
serde_json = "*"
sqlparser = "*"
sqlx = { version = "*", default-features = false, features = ["postgres", "runtime-tokio", "json"] }
tokio = { version = "*", features = ["full"] }
