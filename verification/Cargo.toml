[package]
name = "cablesim"
version = "0.1.0"
edition = "2021"
publish = false

[dependencies]
ahash = { version = "=0.7.8", features = ["serde"] }
cogs-gamedev = { version = "=0.8.0", features = ["serde"] }
enum-map = "=1.1.1"
macroquad = "=0.3.26"
once_cell = "1"
serde = { version = "1", features = ["derive"] }
serde_json = "1"
