[package]
name = "fuel_ledger"
version = "0.1.0"
edition = "2021"
publish = false

[dependencies]
axum = "0.7"
chrono = { version = "0.4", features = ["serde"] }
rust_decimal = { version = "1", features = ["serde-with-float"] }
serde = { version = "1", features = ["derive"] }
sqlx = { version = "0.8", default-features = false, features = ["postgres", "runtime-tokio", "derive", "uuid", "chrono", "rust_decimal"] }
tokio = { version = "1", features = ["sync", "rt-multi-thread", "macros", "net"] }
uuid = { version = "1", features = ["v4", "serde"] }
