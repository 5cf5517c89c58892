[package]
name = "crowd_sim"
version = "0.1.0"
edition = "2021"
publish = false

[dependencies]
anymap = "0.12"
rand = "0.8"
log = "0.4"
env_logger = "0.10"
