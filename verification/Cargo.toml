[package]
name = "visitor_bridge"
version = "0.1.0"
edition = "2021"
publish = false

[dependencies]
boa_engine = "0.17"
lazy-regex = "3"
serde = { version = "1", features = ["derive"] }
serde_json = "1"
swc_core = { version = "*", features = ["ecma_plugin_transform", "ecma_ast_serde"] }
