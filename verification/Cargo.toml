[package]
name = "flowsurface"
version = "0.1.0"
edition = "2021"
publish = false

[dependencies]
serde = { version = "=1.0.229", features = ["derive"] }
serde_json = "=1.0.154"
log = "=0.4.35"
chrono = "=0.4.45"
csv = "=1.4.0"
zip = "=9.2.2"
duckdb = { version = "=1.20000.1", default-features = false }
thiserror = "=2.0.21"
tokio = { version = "1", features = ["rt", "time"] }
rust_decimal = "1"
