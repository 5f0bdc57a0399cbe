[package]
name = "ledger_query"
version = "0.1.0"
edition = "2021"
publish = false

[dependencies]
hex = "*"
serde = { version = "*", features = ["derive"] }
axum = "*"
sqlx = { version = "*", default-features = false, features = ["postgres", "runtime-tokio"] }
tracing = "*"
tokio = { version = "*", features = ["rt-multi-thread", "macros", "net"] }
