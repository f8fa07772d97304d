[package]
name = "proc_qq"
version = "0.1.0"
edition = "2021"
publish = false

[dependencies]
anyhow = "=1.0.104"
async-trait = "=0.1.92"
ricq = "<0.1.10"
ricq-core = "<0.1.10"
tracing = "=0.1.44"
