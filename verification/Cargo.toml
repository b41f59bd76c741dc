[package]
name = "workspace_engine"
version = "0.1.0"
edition = "2021"
publish = false

[dependencies]
anyhow = "=1.0.104"
borsh = "=0.9.3"
workspaces = { version = "=0.7.0", default-features = false }
