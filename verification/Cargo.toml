[package]
name = "rm32"
version = "0.1.0"
edition = "2021"
publish = false

[dependencies]
bytemuck = { version = "1", features = ["derive"] }
embedded-hal = "1"
fixed = "1"
