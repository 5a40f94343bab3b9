[package]
name = "websockets"
version = "0.1.0"
edition = "2021"
publish = false

[dependencies]
async-mutex = "1.4"
futures = "0.3"
