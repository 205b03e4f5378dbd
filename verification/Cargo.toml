[package]
name = "speak"
version = "0.1.0"
edition = "2021"
publish = false

[dependencies]
arboard = "=3.6.1"
cpal = "=0.18.2"
directories = "=6.0.0"
rubato = "=0.15.0"
serde = { version = "=1.0.229", features = ["derive"] }
toml = "=0.9.8"
whisper-rs = "=0.16.0"
