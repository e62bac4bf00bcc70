[package]
name = "aggregate_core"
version = "0.1.0"
edition = "2021"
publish = false

[dependencies]
cqrs-es = "=0.4.12"
async-trait = "=0.1.92"
serde = { version = "=1.0.229", features = ["derive"] }
