[package]
name = "microserial_gui"
version = "0.1.0"
edition = "2021"
publish = false

[dependencies]
time = { version = "0.3", features = ["formatting"] }
serde = { version = "1", features = ["derive"] }
serde_json = "1"
directories = "5"
thiserror = "1"
strum = { version = "0.26", features = ["derive"] }
env_logger = "0.11"
libc = "0.2"
