[package]
name = "cynic"
version = "0.1.0"
edition = "2021"
publish = false

[dependencies]
ref-cast = "1"
serde = { version = "1", features = ["derive"] }
