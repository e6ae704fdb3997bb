[package]
name = "wait_for_me"
version = "0.1.0"
edition = "2021"
publish = false

[dependencies]
async-lock = "1"
futures = "0.3"
futures-timer = "3"
