[package]
name = "pulse"
version = "0.1.0"
edition = "2021"
publish = false

[dependencies]
anyhow = "=1.0.104"
gtk = "=0.17.1"
gtk4 = "=0.7.3"
libc = "=0.2.191"
pango = "=0.17.10"
pangocairo = "=0.17.10"
serde = { version = "=1.0.229", features = ["derive"] }
serde_json = "=1.0.154"
sscanf = "=0.1.4"
