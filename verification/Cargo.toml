[package]
name = "flowerchecker"
version = "0.1.0"
edition = "2021"
publish = false

[dependencies]
dirs = "*"
rm_rf = "*"
serde = { version = "*", features = ["derive"] }
serde_derive = "*"
toml = "*"
