[package]
name = "cluster_node"
version = "0.1.0"
edition = "2021"
publish = false

[dependencies]
evmap = "10"
url = "2"
serde = { version = "1", features = ["derive"] }
serde_json = "1"
structopt = "0.3"
sled = "0.34"
reqwest = { version = "0.11", default-features = false, features = ["blocking"] }
