[package]
name = "rustymotion"
version = "0.1.0"
edition = "2021"
publish = false

[dependencies]
anyhow = "*"
actix-files = "*"
actix-web = "*"
headless_chrome = "*"
image = "*"
num_cpus = "*"
serde = { version = "*", features = ["derive"] }
serde_json = "*"
