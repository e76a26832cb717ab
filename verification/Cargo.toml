[package]
name = "function_name_casing"
version = "0.1.0"
edition = "2021"
publish = false

[dependencies]
full_moon = "*"
serde = { version = "*", features = ["derive"] }
