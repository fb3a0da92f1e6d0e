[package]
name = "cinch"
version = "0.1.0"
edition = "2021"
publish = false

[dependencies]
log = "0.3"
env_logger = "0.3"
getopts = "0.2"
rustc-serialize = "0.3"
time = "0.1"

[dev-dependencies]
rand = "0.8"
