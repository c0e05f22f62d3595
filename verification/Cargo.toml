[package]
name = "run_rs"
version = "0.1.0"
edition = "2021"
publish = false

[dependencies]
walkdir = "*"
clap = { version = "*", features = ["derive"] }

[dev-dependencies]
assert_fs = "*"
