[package]
name = "shader_sync"
version = "0.1.0"
edition = "2021"
publish = false

[dependencies]
gl = "*"
glfw = "*"
serde = { version = "1", features = ["derive"] }
serde_json = "1"
