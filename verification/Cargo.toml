[package]
name = "human_typist"
version = "0.1.0"
edition = "2021"
publish = false

[dependencies]
rand = "0.8"
enigo = "0.1"
serde = { version = "1", features = ["derive"] }
serde_json = "1"
