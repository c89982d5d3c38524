[package]
name = "gl_framework"
version = "0.1.0"
edition = "2021"
publish = false

[dependencies]
c_str_macro = "=1.0.3"
cgmath = "=0.18.0"
gl = "=0.14.0"
image = { version = "=0.23.14", default-features = false, features = ["png", "jpeg"] }
imgui-glfw-rs = { version = "=0.13.1", features = ["opengl"] }
nalgebra = "=0.35.0"
nalgebra-glm = "=0.21.0"
