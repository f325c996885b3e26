[package]
name = "stool"
version = "0.1.0"
edition = "2021"
publish = false

[dependencies]
clap = { version = "4", features = ["derive"] }
clap_complete = "4"
dialoguer = "0.11"
regex = "1"
rustyline = "14"
serde = { version = "1", features = ["derive"] }
serde_yaml = "0.9"
zeroize = "1"
