[package]
name = "code_checks"
version = "0.1.0"
edition = "2021"
publish = false

[dependencies]
annotate-snippets = "0.11"
tree-sitter = "*"
tree-sitter-c-sharp = "*"
regex = "1"
