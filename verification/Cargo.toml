[package]
name = "parser"
version = "0.1.0"
edition = "2021"
publish = false

[dependencies]
tree-sitter = "*"
tree-sitter-rust = "*"
walkdir = "*"
anyhow = "*"
ron = "*"
serde = { version = "*", features = ["derive"] }
prettytable-rs = "*"
