[package]
name = "list_models_request"
version = "0.1.0"
edition = "2021"
publish = false

[dependencies]
url = "=2.5.8"
reqwest = { version = "=0.13.5", default-features = false }
serde = { version = "=1.0.229", features = ["derive"] }
thiserror = "=2.0.21"
typed-builder = "=0.23.2"
deranged = { version = "=0.5.8", features = ["serde", "alloc"] }

[dev-dependencies]
form_urlencoded = "=1.2.2"
