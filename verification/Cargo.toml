[package]
name = "fsapi"
version = "0.1.0"
edition = "2021"
publish = false

[dependencies]
quick-xml = "0.22"
reqwest = { version = "0.11", default-features = false }
tokio = { version = "1", features = ["macros", "rt-multi-thread", "sync"] }
clap = { version = "3", features = ["derive"] }
dirs = "4"
dotenv = "0.15"
serde = { version = "1", features = ["derive"] }
toml = "0.5"
