[package]
name = "neutron_route"
version = "0.1.0"
edition = "2021"
publish = false

[dependencies]
arboard = { version = "3", default-features = false }
clap = { version = "4", features = ["derive"] }
csv = "1"
cursive = { version = "*", default-features = false, features = ["termion-backend", "ansi"] }
serde = { version = "1", features = ["derive"] }
serde_derive = "1"
