[package]
name = "request_workbench"
version = "0.1.0"
edition = "2021"
publish = false

[dependencies]
reqwest = { version = "0.11", features = ["cookies"] }
tui-textarea = "0.4"
