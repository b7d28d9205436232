[package]
name = "arm_core"
version = "0.1.0"
edition = "2021"
publish = false

[dependencies]
colored = "3.1.1"
glam = "0.32.1"
rand = "0.9.5"
rand_distr = "0.5.1"
serde = { version = "1", features = ["derive"] }
serde_json = "1"
toml = "*"
