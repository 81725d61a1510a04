[package]
name = "space_war"
version = "0.1.0"
edition = "2021"
publish = false

[dependencies]
anathema = "0.2"
eyre = "0.6"
reqwest = { version = "0.12", default-features = false, features = ["blocking", "json"] }
serde = { version = "1", features = ["derive"] }
serde_json = "1"
