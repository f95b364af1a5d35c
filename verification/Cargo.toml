[package]
name = "factomd"
version = "0.1.0"
edition = "2021"
publish = false

[dependencies]
blake2 = "0.10"
clap = "2"
structopt = "0.3"
config = "0.9"
serde = { version = "1", features = ["derive"] }
