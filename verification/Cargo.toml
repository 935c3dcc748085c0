[package]
name = "runcirrus"
version = "0.1.0"
edition = "2021"
publish = false

[dependencies]
clap = { version = "=4.6.7", features = ["derive", "env"] }
semver = "=1.0.28"
which = "=8.0.6"
