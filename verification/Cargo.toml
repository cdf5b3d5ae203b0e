[package]
name = "stonescript"
version = "0.1.0"
edition = "2021"
publish = false

[dependencies]
clap = { version = "4", features = ["derive"] }
eyre = "0.6"
rustc-hash = "1.1"
semver = "1"
serde = { version = "1", features = ["derive"] }
thiserror = "1"
toml = "0.8"
unicode-ident = "1"
