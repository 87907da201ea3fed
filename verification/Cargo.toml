[package]
name = "mplangc"
version = "0.1.0"
edition = "2021"
publish = false

[dependencies]
clap = { version = "=4.6.7", features = ["derive"] }
cranelift = "=0.133.3"
cranelift-codegen = "=0.133.3"
cranelift-frontend = "=0.133.3"
cranelift-jit = "=0.133.3"
cranelift-module = "=0.133.3"
cranelift-object = "=0.133.3"
env_logger = "=0.11.11"
log = "=0.4.35"
target-lexicon = "=0.13.5"
