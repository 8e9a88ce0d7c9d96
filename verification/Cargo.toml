[package]
name = "ekad"
version = "0.1.0"
edition = "2021"
publish = false

[dependencies]
petgraph = "0.6"
rusqlite = { version = "0.31", features = ["bundled"] }
anyhow = "1"
vello = "0.1"
winit = "0.30"
accesskit = "0.14"
smallvec = "1"
lazy_static = "1"
enum-map = "2"
