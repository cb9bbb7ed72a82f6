[package]
name = "access_log_transform"
version = "0.1.0"
edition = "2021"
publish = false

[dependencies]
chrono = "0.4"
data-encoding = "2"
lambda_runtime = "0.2"
lazy_static = "1"
log = "0.4"
rayon = "1"
regex = "1"
serde = { version = "1", features = ["derive"] }
serde_derive = "1"
serde_json = "1"
simple_logger = "1"
