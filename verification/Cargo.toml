[package]
name = "ceremony"
version = "0.1.0"
edition = "2021"
publish = false

[dependencies]
halo2curves = { version = "=0.10.0", features = ["std"] }
blake2 = "=0.11.0"
rand = "=0.8.8"
clap = { version = "*", features = ["derive"] }
anyhow = "*"
log = "*"
env_logger = "*"
