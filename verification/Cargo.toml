[package]
name = "tiny-agent-rs"
version = "0.1.0"
edition = "2021"
publish = false

[dependencies]
async-openai = { version = "=0.42.2", features = ["chat-completion"] }
clap = "=4.6.7"
dotenvy = "=0.15.7"
jsonschema = { version = "=0.60.1", default-features = false }
reqwest = { version = "=0.13.5", features = ["json"] }
schemars = "=0.8.22"
serde = { version = "=1.0.229", features = ["derive"] }
serde_json = "=1.0.154"
serde_path_to_error = "=0.1.20"
thiserror = "=1.0.69"
tokio = { version = "=1.54.1", features = ["macros", "rt-multi-thread", "time"] }
tracing = "=0.1.44"
tracing-subscriber = "=0.3.23"
