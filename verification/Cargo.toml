[package]
name = "rss_deploy"
version = "0.1.0"
edition = "2021"
publish = false

[dependencies]
camino = "*"
clap = { version = "*", features = ["derive"] }
color-eyre = "*"
log = "*"
ron = "*"
serde = { version = "*", features = ["derive"] }
signal-hook = "*"
simplelog = "*"
ssh2 = "*"
