[package]
name = "clean_layers"
version = "0.1.0"
edition = "2021"
publish = false

[dependencies]
anyhow = "1"
async-trait = "0.1"
destructure = "*"
tokio = { version = "1", default-features = false, features = ["macros", "rt-multi-thread"] }
