[package]
name = "aqc_toml_engines"
version = "0.1.0"
edition = "2021"
publish = false

[dependencies]
toml_edit = "0.22"
globset = "0.4"
serde = { version = "1", features = ["derive"] }
schemars = "1"
