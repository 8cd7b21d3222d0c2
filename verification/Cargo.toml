[package]
name = "memory_structs"
version = "0.1.0"
edition = "2021"
publish = false

[dependencies]
zerocopy = { version = "*", features = ["derive"] }
