[package]
name = "stock_crawler"
version = "0.1.0"
edition = "2021"
publish = false

[dependencies]
anyhow = "=1.0.104"
async-trait = "=0.1.92"
chrono = "=0.4.45"
encoding_rs = "0.8"
hashbrown = "=0.17.1"
num_cpus = "=1.17.0"
once_cell = "=1.21.4"
reqwest = { version = "=0.13.5", default-features = false, features = ["json", "form", "rustls"] }
rust_decimal = "=1.43.0"
serde = { version = "=1.0.229", features = ["derive"] }
serde_json = "=1.0.154"
sqlx = { version = "=0.9.0", default-features = false, features = ["postgres", "runtime-tokio", "chrono", "rust_decimal", "derive"] }
tokio = { version = "=1.54.1", features = ["full"] }
tokio-cron-scheduler = "=0.15.1"
