[package]
name = "task_hero"
version = "0.1.0"
edition = "2021"
publish = false

[dependencies]
chrono = "0.4"
serde = { version = "1", features = ["derive"] }
eframe = { version = "0.29", default-features = false, features = ["persistence"] }
egui = "0.29"
env_logger = "0.11"
