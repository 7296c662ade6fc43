[package]
name = "zenoh-flat"
version = "0.1.0"
edition = "2021"
publish = false

[dependencies]
zenoh = { version = "*", default-features = false, features = ["unstable"] }
zenoh-ext = { version = "*", default-features = false, features = ["unstable"] }
json5 = "*"
serde_yaml = "*"
