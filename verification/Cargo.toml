[package]
name = "react_unforget_transform"
version = "0.1.0"
edition = "2021"
publish = false

[dependencies]
serde = { version = "1", features = ["derive"] }
serde_json = "1"
swc_common = "*"
swc_core = { version = "*", features = ["ecma_plugin_transform"] }
swc_ecma_ast = "*"
swc_ecma_utils = "*"
swc_ecma_visit = "*"
