[package]
name = "git_commit"
version = "0.1.0"
edition = "2021"
publish = false

[dependencies]
getopts = "*"
ollama-rs = "*"
tokio = { version = "*", features = ["macros", "rt-multi-thread"] }
futures = "*"
