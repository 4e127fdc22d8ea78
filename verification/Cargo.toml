[package]
name = "graph_craft"
version = "0.1.0"
edition = "2021"
publish = false

[dependencies]
futures = "0.3"
glam = "0.29"
log = "0.4"
serde = { version = "1", features = ["derive"] }
thiserror = "2"
