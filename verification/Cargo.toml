[package]
name = "armature_fuzz"
version = "0.1.0"
edition = "2021"
publish = false

[dependencies]
serde_json = "1"
serde = { version = "1", features = ["derive"] }
arbitrary = { version = "1", features = ["derive"] }
bytes = "1"
