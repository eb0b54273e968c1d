[package]
name = "prompt_relay"
version = "0.1.0"
edition = "2021"
publish = false

[dependencies]
genai = "0.1"
ollama-rs = { version = "0.2", default-features = false }
thiserror = "1"
