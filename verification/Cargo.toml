[package]
name = "bluenrg"
version = "0.1.0"
edition = "2021"
publish = false

[dependencies]
heapless = "=0.5.6"
nom = { version = "=5.1.3", default-features = false, features = ["std"] }
embedded-hal = { version = "=0.2.7", features = ["unproven"] }
embedded-time = "=0.10.1"
drogue-embedded-timer = "=0.2.1"
log = "=0.4.34"
