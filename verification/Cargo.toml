[package]
name = "reqwest_resume"
version = "0.3.0"
edition = "2021"
publish = false

[dependencies]
bytes = "1"
futures = "0.3"
hyperx = "1"
log = "0.4"
reqwest = { version = "0.11", default-features = false, features = ["stream"] }
