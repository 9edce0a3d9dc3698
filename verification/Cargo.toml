[package]
name = "osix_firmware"
version = "0.1.0"
edition = "2021"
publish = false

[dependencies]
anyhow = "1"
embedded-hal = "1"
esp-idf-hal = "*"
esp-idf-svc = "*"
esp-idf-sys = "*"
heapless = "0.8"
log = "0.4"
serde = { version = "1", features = ["derive"] }
serde_json = "1"
thiserror = "1"
toml = "0.8"
