[package]
name = "compiler"
version = "0.1.0"
edition = "2021"
publish = false

[dependencies]
logos = "=0.12.1"
inkwell = { version = "=0.1.1", features = ["llvm14-0-no-llvm-linking"] }
clap = { version = "=3.2.25", features = ["derive"] }
