[package]
name = "pulse"
version = "0.1.0"
edition = "2021"
publish = false

[dependencies]
anyhow = "=1.0.104"
clap = { version = "=4.6.7", features = ["derive"] }
esp-idf-hal = "=0.47.0"
esp-idf-svc = "=0.53.0"
esp-idf-sys = "=0.38.1"
futures-util = "=0.3.34"
libm = "=0.2.16"
log = "=0.4.35"
notify = "=8.2.1"
serde = { version = "=1.0.229", features = ["derive"] }
serde_json = "=1.0.154"
smart-leds = "=0.4.0"
tokio = { version = "=1.54.1", features = ["full"] }
tokio-tungstenite = "=0.30.0"
tracing = "=0.1.44"
tracing-subscriber = "=0.3.23"
ws2812-esp32-rmt-driver = { version = "=0.15.0", features = ["smart-leds-trait"] }
