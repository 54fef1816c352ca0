[package]
name = "wg_tunnel"
version = "0.1.0"
edition = "2021"
publish = false

[dependencies]
ipnetwork = { version = "*", default-features = false }
clap = { version = "4", features = ["derive"] }
log = "0.4"
getifaddrs = "*"
wait-timeout = "0.2"
