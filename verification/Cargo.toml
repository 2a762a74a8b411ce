[package]
name = "imu_pipeline"
version = "0.1.0"
edition = "2021"
publish = false

[dependencies]
embedded-hal = "=1.0.0"
linux-embedded-hal = "=0.4.1"
biquad = "=0.4.2"
rclrs = "=0.4.1"
