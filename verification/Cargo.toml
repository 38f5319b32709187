[package]
name = "zero_pass"
version = "0.1.0"
edition = "2021"
publish = false

[dependencies]
zero_pass_backend = "=0.3.2"
clap = { version = "=4.6.7", features = ["derive"] }
copypasta = "=0.10.2"
inquire = "=0.9.4"
rand = "=0.8.8"
tokio = { version = "=1.53.2", features = ["rt-multi-thread", "macros"] }
