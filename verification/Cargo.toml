[package]
name = "coretoolbox"
version = "0.1.0"
edition = "2021"
publish = false

[dependencies]
nix = { version = "*", features = ["user"] }
serde = { version = "*", features = ["derive"] }
serde_json = "*"
structopt = "*"
varlink = "*"
