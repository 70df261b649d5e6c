[package]
name = "segment_utils"
version = "0.1.0"
edition = "2021"
publish = false

[dependencies]
anyhow = "*"
clap = { version = "*", features = ["derive"] }
rustyline = "*"
segment-rs = "=0.0.1-alpha.9"
tokio = { version = "*", features = ["macros", "rt-multi-thread"] }
