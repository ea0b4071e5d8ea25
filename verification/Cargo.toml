[package]
name = "counter_duel"
version = "0.1.0"
edition = "2021"
publish = false

[dependencies]
rand = "0.9"
clap = "4"
env_logger = "0.11"
log = "0.4"
