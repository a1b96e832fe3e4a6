[package]
name = "heater_control"
version = "0.1.0"
edition = "2021"
publish = false

[dependencies]
bincode = { version = "=2.0.1", default-features = false, features = ["derive"] }
cortex-m = "=0.7.10"
embassy-executor = "=0.9.1"
embassy-futures = "=0.1.2"
embassy-rp = { version = "=0.10.0", features = ["rp2040", "time-driver", "critical-section-impl"] }
embassy-sync = "=0.8.0"
embassy-time = "=0.5.1"
embedded-graphics = "=0.8.1"
fixed = "=1.31.0"
micromath = "=2.1.0"
pid-lite = "=1.2.0"
ssd1306 = "=0.10.0"
