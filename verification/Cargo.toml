[package]
name = "auth_broker"
version = "0.1.0"
edition = "2021"
publish = false

[dependencies]
env_logger = "0.3"
log = "0.3"
rotor = "0.6"
rotor-http = "0.7"
rusqlite = "0.7"
rustc-serialize = "0.3"
