[package]
name = "noise_generator"
version = "0.1.0"
edition = "2021"
publish = false

[dependencies]
android_logger = "*"
anyhow = "=1.0.104"
directories = "=6.0.0"
log = "=0.4.34"
rand = "=0.9.5"
serde = { version = "=1.0.229", features = ["derive"] }
tinyaudio = "=1.1.0"
toml = "=0.9.12"
