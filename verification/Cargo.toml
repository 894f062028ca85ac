[package]
name = "lxc-run"
version = "0.1.0"
edition = "2021"
publish = false

[dependencies]
clap = "=2.34.0"
failure = { version = "=0.1.8", default-features = false, features = ["std"] }
lxc-sys = "=0.5.0"
