[package]
name = "cf_access"
version = "0.1.0"
edition = "2021"
publish = false

[dependencies]
jwtk = "*"
reqwest = "*"
serde = { version = "*", features = ["derive"] }
uuid = "*"
