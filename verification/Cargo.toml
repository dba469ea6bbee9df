[package]
name = "delirious_descent"
version = "0.1.0"
edition = "2021"
publish = false

[dependencies]
macroquad = { version = "=0.3.26", default-features = false }
enum-map = "=2.7.3"
instant = "=0.1.13"
serde = { version = "=1.0.229", features = ["derive"] }
