[package]
name = "todo_manager"
version = "0.1.0"
edition = "2021"
publish = false

[dependencies]
serde = { version = "=1.0.229", features = ["derive"] }
serde_json = "=1.0.154"
nanoid = "=0.4.0"
ratatui = "=0.30.2"
crossterm = "=0.29.0"
ratatui-textarea = "=0.9.4"
dirs = "=7.0.0"
color-eyre = "=0.6.5"
