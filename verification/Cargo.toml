[package]
name = "hive_adapter"
version = "0.1.0"
edition = "2021"
publish = false

[dependencies]
chrono = { version = "*", default-features = false, features = ["clock"] }
anyhow = "*"
serde = { version = "*", features = ["derive"] }
tokio = { version = "*", features = ["rt", "process"] }
polars = { version = "*", default-features = false, features = ["csv", "dtype-date", "dtype-datetime"] }
