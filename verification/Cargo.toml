[package]
name = "chat_context"
version = "0.1.0"
edition = "2021"
publish = false

[dependencies]
serenity = "=0.12.5"
async-openai = { version = "=0.42.1", features = ["chat-completion-types"] }
tokio = { version = "1", features = ["macros", "rt-multi-thread"] }
serde = { version = "1", features = ["derive"] }
reqwest = { version = "0.12", default-features = false, features = ["json", "rustls-tls"] }
