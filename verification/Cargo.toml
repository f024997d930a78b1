[package]
name = "consul"
version = "0.1.0"
edition = "2021"
publish = false

[dependencies]
async-trait = "0.1"
curl = "0.4"
reqwest = { version = "0.12", features = ["json"] }
serde = { version = "1", features = ["derive"] }
serde_json = "1"
thiserror = "1"
url = "2"
