[package]
name = "parquet_scan"
version = "0.1.0"
edition = "2021"
publish = false

[dependencies]
arrow = { version = "53", default-features = false }
bytes = "1"
datafusion = { version = "42", default-features = false, features = ["parquet"] }
futures = "0.3"
log = "0.4"
object_store = { version = "0.11", default-features = false }
once_cell = "1"
parking_lot = "0.12"
tokio = { version = "1", features = ["rt", "sync"] }
