[package]
name = "todo_layout"
version = "0.1.0"
edition = "2021"
publish = false

[dependencies]
chrono = "0.4"
eframe = { version = "0.31", default-features = false, features = ["persistence"] }
log = "0.4"
serde = { version = "1", features = ["derive"] }
