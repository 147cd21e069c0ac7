[package]
name = "cronwrap"
version = "0.1.0"
edition = "2021"
publish = false

[dependencies]
chrono = "0.4"
clap = { version = "4", features = ["derive"] }
gethostname = "*"
reqwest = { version = "0.12", features = ["blocking"] }
serde_json = "1"
