[package]
name = "prompt_pipe"
version = "0.1.0"
edition = "2021"
publish = false

[dependencies]
atty = "0.2"
ollama-rs = "*"
tokio = { version = "1", features = ["macros", "rt-multi-thread"] }
