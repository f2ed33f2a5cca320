[package]
name = "asi"
version = "0.1.0"
edition = "2021"
publish = false

[dependencies]
byteorder = "=1.5.0"
ctrlc = "=3.5.2"
env_logger = "=0.11.11"
log = "=0.4.34"
oneshot = { version = "=0.2.1", features = ["std"] }
thiserror = "=2.0.21"
