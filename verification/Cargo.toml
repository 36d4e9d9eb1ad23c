[package]
name = "tcr"
version = "0.1.0"
edition = "2021"
publish = false

[dependencies]
clap = { version = "*", features = ["derive"] }
colored = "*"
ignore = "*"
itertools = "*"
notify = "*"
regex = "*"
serde = { version = "*", features = ["derive"] }
serde_json = "*"
