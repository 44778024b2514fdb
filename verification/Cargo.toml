[package]
name = "engine"
version = "0.1.0"
edition = "2021"
publish = false

[dependencies]
base64 = "0.13"
thiserror = "1"
anyhow = "1"
serde = { version = "1", features = ["derive"] }
serde_json = "1"
serde_repr = "0.1"
indexmap = { version = "2", features = ["serde"] }
slotmap = "1"
nalgebra-glm = "*"
image = { version = "*", default-features = false, features = ["png", "jpeg"] }
sdl2 = "*"
native-dialog = "*"
imgui = "*"
imgui-opengl-renderer = "*"
