[package]
name = "profile_identifiers"
version = "0.1.0"
edition = "2021"
publish = false

[dependencies]
hex = "0.4"
ockam_vault_core = "*"
serde = { version = "1", features = ["derive"] }

[dev-dependencies]
serde_json = "1"
