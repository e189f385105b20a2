[package]
name = "wasm_lang"
version = "0.1.0"
edition = "2021"
publish = false

[dependencies]
ast-grep-core = "*"
tree-sitter-facade-sg = "*"
web-tree-sitter-sg = "*"
wasm-bindgen = "*"
