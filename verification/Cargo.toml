[package]
name = "wiki_tools"
version = "0.1.0"
edition = "2021"
publish = false

[dependencies]
csv = "1"
serde = { version = "1", features = ["derive"] }
thiserror = "2"
tokio = { version = "1", features = ["fs", "rt-multi-thread", "macros"] }
futures = "0.3"
