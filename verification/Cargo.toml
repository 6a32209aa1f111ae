[package]
name = "actix_postgres"
version = "0.1.0"
edition = "2021"
publish = false

[dependencies]
actix = "0.13"
bb8-postgres = "0.8"
thiserror = "1"

[dev-dependencies]
tokio = { version = "1", features = ["rt", "time"] }
