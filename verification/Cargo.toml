[package]
name = "transaction_handler"
version = "0.1.0"
edition = "2021"
publish = false

[dependencies]
rust_decimal = "1"
csv-async = { version = "1", features = ["tokio"] }
tokio = { version = "1", features = ["full"] }
futures = "0.3"
structopt = "0.3"
thiserror = "1"
anyhow = "1"
log = "0.4"
