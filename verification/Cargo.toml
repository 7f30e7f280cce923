[package]
name = "zaprett"
version = "0.1.0"
edition = "2021"
publish = false

[dependencies]
rust-ini = "=0.21.3"
serde = { version = "=1.0.229", features = ["derive"] }
serde_json = "=1.0.151"
clap = { version = "=4.6.7", features = ["derive"] }
nix = { version = "=0.31.3", features = ["signal", "user"] }
sysinfo = "=0.39.6"
sysctl = "=0.7.1"
daemonize = "=0.5.0"
