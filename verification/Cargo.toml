[package]
name = "shark"
version = "0.1.0"
edition = "2021"
publish = false

[dependencies]
fastrand = "*"
libloading = "*"
rand = "*"
serde = { version = "*", features = ["derive"] }
toml = "*"
