[package]
name = "name_registry"
version = "0.1.0"
edition = "2021"
publish = false

[dependencies]
ring = "=0.17.14"
base64 = "=0.22.1"
chrono = { version = "=0.4.45", features = ["serde"] }
serde = { version = "=1.0.229", features = ["derive"] }
rouille = "=3.6.2"
reqwest = { version = "=0.12.28", default-features = false, features = ["blocking", "json", "multipart"] }
rustyline = "=19.0.0"
