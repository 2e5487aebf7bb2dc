[package]
name = "rbx_types"
version = "0.1.0"
edition = "2021"
publish = false

[dependencies]
serde = { version = "1", features = ["derive"] }
nalgebra = "*"
colors-transform = "*"
thiserror = "*"
