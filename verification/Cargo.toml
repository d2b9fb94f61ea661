[package]
name = "inspector_transform"
version = "0.1.0"
edition = "2021"
publish = false

[dependencies]
pathdiff = "0.2"
serde = { version = "1", features = ["derive"] }
serde_json = "1"
swc_core = { version = "*", features = ["common", "ecma_ast", "ecma_visit", "ecma_plugin_transform"] }
