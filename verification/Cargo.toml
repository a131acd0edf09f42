[package]
name = "temperature_logger"
version = "0.1.0"
edition = "2021"
publish = false

[dependencies]
anyhow = "1"
log = "0.4"
serde = { version = "1", features = ["derive"] }
serde_json = "1"
embedded-hal = "0.2"
embedded-svc = "0.22"
esp-idf-sys = "0.31"
esp-idf-hal = "0.38"
esp-idf-svc = "0.42"
dht-sensor = "0.2"
ds1307 = "0.4"
