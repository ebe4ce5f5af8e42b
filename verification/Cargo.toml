[package]
name = "zenoh_publisher"
version = "0.1.0"
edition = "2021"
publish = false

[dependencies]
zenoh = { version = "0.11", default-features = false, features = ["unstable"] }
log = "0.4"
