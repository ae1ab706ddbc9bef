[package]
name = "hollow_earth"
version = "0.1.0"
edition = "2021"
publish = false

[dependencies]
egui = "0.29"
glam = { version = "0.29", features = ["serde"] }
serde = { version = "1", features = ["derive"] }
bincode = "1"
noise = "0.9"
thiserror = "1"
