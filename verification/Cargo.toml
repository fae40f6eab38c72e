[package]
name = "customer_orders"
version = "0.1.0"
edition = "2021"
publish = false

[dependencies]
uuid = { version = "=1.27.0", features = ["v4", "serde"] }
chrono = { version = "=0.4.45", features = ["serde"] }
serde = { version = "=1.0.229", features = ["derive"] }
actix-web = "=4.15.0"
sqlx = { version = "=0.8.6", default-features = false, features = ["postgres", "runtime-tokio", "uuid", "chrono"] }
thiserror = "=2.0.21"
async-trait = "=0.1.92"
