[package]
name = "nix_parser"
version = "0.1.0"
edition = "2021"
publish = false

[dependencies]
tree-sitter = "*"
tree-sitter-nix = "*"
lru = "*"
serde = { version = "*", features = ["derive"] }
