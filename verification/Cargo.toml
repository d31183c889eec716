[package]
name = "abstractapi"
version = "0.1.0"
edition = "2021"
publish = false

[dependencies]
dashmap = "5"
serde = { version = "1", features = ["derive"] }
serde_json = "1"
ureq = "2"
