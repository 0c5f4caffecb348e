[package]
name = "camera_server"
version = "0.1.0"
edition = "2021"
publish = false

[dependencies]
bcrypt = "=0.8.2"
diesel = { version = "=1.4.8", features = ["postgres", "r2d2", "uuidv07"] }
rocket = { version = "0.5", features = ["json"] }
serde = { version = "=1.0.229", features = ["derive"] }
uuid = { version = "=0.8.2", features = ["serde", "v4"] }
