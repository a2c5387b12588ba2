[package]
name = "stack_vm"
version = "0.1.0"
edition = "2021"
publish = false

[dependencies]
num-bigint = "0.4"
num-traits = "0.2"
murmur3 = "0.5"
serde = { version = "1", features = ["derive"] }
