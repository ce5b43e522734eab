[package]
name = "vehicle_control"
version = "0.1.0"
edition = "2021"
publish = false

[dependencies]
bytes = "1"
sbus-rs = "*"
libm = "0.2"
tokio-util = { version = "0.7", features = ["codec"] }
fusion-ahrs = "*"
nalgebra = { version = "*", default-features = false, features = ["libm"] }
