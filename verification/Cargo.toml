[package]
name = "ferrischat_history"
version = "0.1.0"
edition = "2021"
publish = false

[dependencies]
actix-web = "=4.18.1"
axum = "=0.8.9"
bigdecimal = "=0.4.11"
ferrischat_common = "=0.3.0"
http = "=1.5.0"
num-traits = "=0.2.19"
serde = { version = "=1.0.229", features = ["derive"] }
sqlx = { version = "=0.9.0", default-features = false, features = ["postgres", "bigdecimal", "runtime-tokio", "time"] }
