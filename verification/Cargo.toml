[package]
name = "visibility_index"
version = "0.1.0"
edition = "2021"
publish = false

[dependencies]
uuid = "*"
qdrant-client = "*"
serde_json = "*"
