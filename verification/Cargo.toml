[package]
name = "dive"
version = "0.1.0"
edition = "2021"
publish = false

[dependencies]
anyhow = "*"
better-panic = "*"
chrono = "*"
crossterm = "*"
log = "*"
ratatui = "*"
serde = { version = "*", features = ["derive"] }
serde_json = "*"
tui-input = "*"
tui-tree-widget = "*"
ureq = "*"
url = "*"
uuid = { version = "*", features = ["v4"] }
