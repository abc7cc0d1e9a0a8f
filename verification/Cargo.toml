[package]
name = "vbus_logger"
version = "0.1.0"
edition = "2021"
publish = false

[dependencies]
resol-vbus = "=0.2.1"
sqlite = "=0.37.4"
toml = "=1.1.8"
serde = "1"
serde_derive = "1"
log = "0.4"
env_logger = "=0.11.11"
image = "0.24"
imageproc = "0.23"
rusttype = "0.9"
serialport = { version = "=4.10.1", default-features = false }
