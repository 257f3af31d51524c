[package]
name = "calby_docs"
version = "0.1.0"
edition = "2021"
publish = false

[dependencies]
bb8 = "0.7"
bb8-postgres = "0.7"
rust-crypto = "0.2"
diesel = { version = "1.4", features = ["postgres"] }
dotenv = "0.15"
futures = "0.3"
hyper = { version = "0.14", features = ["full"] }
postgres-types = { version = "0.2", features = ["derive"] }
serde = { version = "1", features = ["derive"] }
serde_json = "1"
tokio = { version = "1", features = ["full"] }
tokio-postgres = "0.7"
tonic = "0.8"
uuid = "1"
