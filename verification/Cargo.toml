[package]
name = "rustrbx"
version = "0.1.0"
edition = "2021"
publish = false

[dependencies]
async-trait = "0.1"
error-chain = "0.12"
reqwest = { version = "0.11", features = ["json"] }
serde = { version = "1", features = ["derive"] }
tokio = { version = "1", features = ["macros", "rt-multi-thread"] }
