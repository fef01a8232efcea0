[package]
name = "cpp_auto_format"
version = "0.1.0"
edition = "2021"
publish = false

[dependencies]
glob = "*"
shell-words = "*"
serde_json = "*"
serde = { version = "*", features = ["derive"] }
reqwest = { version = "*", default-features = false, features = ["blocking", "json"] }
rayon = "*"
clap = "*"
