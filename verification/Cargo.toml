[package]
name = "icpi_backend"
version = "0.1.0"
edition = "2021"
publish = false

[dependencies]
candid = "0.10"
num-bigint = "0.4"
num-traits = "0.2"
ic-cdk = "0.16"
ic-cdk-timers = "0.10"
futures = "0.3"
serde = { version = "1", features = ["derive"] }
