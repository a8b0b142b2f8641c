[package]
name = "gastown"
version = "0.1.0"
edition = "2021"
publish = false

[dependencies]
git2 = { version = "*", default-features = false }
dirs = "*"

[dev-dependencies]
tempfile = "*"
