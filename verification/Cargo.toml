[package]
name = "material_theme"
version = "0.1.0"
edition = "2021"
publish = false

[dependencies]
clap = { version = "=4.6.7", features = ["derive"] }
material-colors = { version = "=0.4.2", features = ["image"] }
serde_json = "=1.0.154"
