[package]
name = "reroute"
version = "0.1.0"
edition = "2021"
publish = false

[dependencies]
inotify = { version = "0.7", default-features = false }
paw = "1.0"
structopt = { version = "0.3", features = ["paw"] }
