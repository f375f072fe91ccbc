[package]
name = "imu_sensors"
version = "0.1.0"
edition = "2021"
publish = false

[dependencies]
vqm = "=0.1.19"
embassy-time = "=0.5.1"
embedded-hal = "=1.0.0"
embedded-hal-async = "=1.0.0"
serde = { version = "=1.0.229", default-features = false, features = ["derive"] }
postcard = { version = "=1.1.3", features = ["experimental-derive"] }
sequential-storage = { version = "=8.0.2", default-features = false, features = ["postcard"] }
