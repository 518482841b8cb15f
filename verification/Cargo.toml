[package]
name = "robo"
version = "0.1.0"
edition = "2021"
publish = false

[dependencies]
anstyle = "*"
clap = { version = "4", features = ["derive"] }
clap_complete = "4"
console = "*"
indicatif = "*"
serde = { version = "1", features = ["derive"] }
serde_json = "1"
toml = "*"
