[package]
name = "render_assembly"
version = "0.1.0"
edition = "2021"
publish = false

[dependencies]
anyhow = "1"
fastset = "*"
gl_constants = "*"
glslang = "*"
lru = "*"
nalgebra = "*"
nalgebra-glm = "*"
tokio = { version = "1", default-features = false, features = ["sync"] }
tracing = "*"
vulkano = { version = "0.34", default-features = false }
weak-table = "*"
