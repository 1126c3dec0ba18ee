[package]
name = "facture"
version = "0.1.0"
edition = "2021"
publish = false

[dependencies]
anyhow = "1"
chrono = "0.4"
clap = { version = "4", features = ["derive"] }
comfy-table = "7"
inquire = { version = "0.7", features = ["editor"] }
minijinja = "2"
serde = { version = "1", features = ["derive"] }
serde_yaml = "0.9"
tempfile = "3"
thiserror = "1"
ureq = "2"
uuid = { version = "1", features = ["v7"] }
