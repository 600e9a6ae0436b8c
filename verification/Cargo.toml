[package]
name = "haversine_gen"
version = "0.1.0"
edition = "2021"
publish = false

[dependencies]
quad-rand = "*"
serde = { version = "*", features = ["derive"] }
serde_json = "*"
