[package]
name = "hotline"
version = "0.1.0"
edition = "2021"
publish = false

[dependencies]
anyhow = "1"
embedded-hal = "0.2"
esp-idf-hal = "*"
esp-idf-svc = "*"
esp-idf-sys = "*"
log = "0.4"
max485 = "*"
nb = "1"
serde = { version = "1", features = ["derive"] }
serde_json = "1"
toml-cfg = "*"
ufmt = "0.2"
