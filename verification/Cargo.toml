[package]
name = "nomad_api"
version = "0.1.0"
edition = "2021"
publish = false

[dependencies]
serde_json = { version = "=1.0.154", features = ["preserve_order", "float_roundtrip"] }
reqwest = { version = "=0.11.27", default-features = false, features = ["json"] }
log = "=0.4.34"
