[package]
name = "shared"
version = "0.1.0"
edition = "2021"
publish = false

[dependencies]
bimap = "=0.6.3"
flate2 = "=1.1.10"
new_mime_guess = "=4.0.4"
serde = { version = "=1.0.229", features = ["derive"] }
serde_json = "=1.0.154"
serde_bytes = "=0.11.19"
bincode = "=1.3.3"
tokio = { version = "=1.54.1", features = ["full"] }
anyhow = "=1.0.104"
thiserror = "=1.0.69"
clap = { version = "=3.2.25", features = ["derive"] }
glam = "=0.25.0"
saft = "=0.34.1"
http_tiny = "=1.1.0"
malvolio = "=0.4.1"
