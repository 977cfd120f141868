[package]
name = "acme_redirect"
version = "0.1.0"
edition = "2021"
publish = false

[dependencies]
toml = "0.5"
actix-web = { version = "3", default-features = false }
nix = { version = "*", features = ["fs", "user"] }
users = "0.11"
