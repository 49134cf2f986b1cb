[package]
name = "dart_monty_native"
version = "0.1.0"
edition = "2021"
publish = false

[dependencies]
monty = "=0.0.23"
monty-types = "=0.0.23"
num-bigint = "=0.4.8"
num-traits = "=0.2.19"
postcard = { version = "=1.1.3", features = ["alloc"] }
serde_json = "=1.0.154"
