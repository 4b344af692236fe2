[package]
name = "rivet"
version = "0.1.0"
edition = "2021"
publish = false

[dependencies]
bus = "=2.4.1"
serde_json = "=1.0.154"
ws = "=0.9.2"
log = "=0.4.35"
env_logger = "=0.11.11"
