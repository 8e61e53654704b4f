[package]
name = "katapult"
version = "0.1.0"
edition = "2021"
publish = false

[dependencies]
heapless = "0.8"
anyhow = "1"
serde = { version = "1", features = ["derive"] }
serde_json = "1"
embedded-svc = "*"
esp-idf-hal = "*"
esp-idf-svc = "*"
esp-idf-sys = "*"
