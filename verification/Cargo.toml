[package]
name = "dict_lookup"
version = "0.1.0"
edition = "2021"
publish = false

[dependencies]
tl = "*"
ureq = "2"
clap = { version = "4", features = ["derive"] }

[dev-dependencies]
serde_json = "*"
