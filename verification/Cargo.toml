[package]
name = "clickhouse_datafusion"
version = "0.1.0"
edition = "2021"
publish = false

[dependencies]
datafusion = { version = "=55.2.0", default-features = false }
datafusion-federation = "=0.5.8"
dashmap = "=6.2.1"
async-trait = "=0.1.92"
