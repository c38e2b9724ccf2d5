[package]
name = "iterated_prisoners_dilemma"
version = "0.1.0"
edition = "2021"
publish = false

[dependencies]
chrono = "0.4"
clap = { version = "4", features = ["derive"] }
rand = "0.9"
serde_json = "1"
