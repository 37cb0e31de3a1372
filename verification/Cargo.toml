[package]
name = "call_stack_driver"
version = "0.1.0"
edition = "2021"
publish = false

[dependencies]
anyhow = "=1.0.104"
cargo-project = "=0.3.0"
clap = { version = "=4.6.7", features = ["derive"] }
env_logger = "=0.11.11"
filetime = "=0.2.29"
rustc_version = "=0.4.1"
walkdir = "=2.5.0"
