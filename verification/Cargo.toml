[package]
name = "rpc_errors"
version = "0.1.0"
edition = "2021"
publish = false

[dependencies]
dialoguer = "0.11"
reqwest = { version = "0.11", features = ["json"] }
serde = { version = "1", features = ["derive"] }
serde_json = "1"
thiserror = "1"
tokio = { version = "1", features = ["macros", "rt-multi-thread"] }
