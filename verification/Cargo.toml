[package]
name = "module_bundler"
version = "0.1.0"
edition = "2021"
publish = false

[dependencies]
oxc_resolver = "=11.24.3"
swc_core = { version = "=82.2.0", features = ["common", "ecma_ast", "ecma_codegen", "ecma_parser", "ecma_preset_env", "ecma_transforms", "ecma_transforms_module", "ecma_visit"] }
swc_node_comments = "=27.0.0"

[dev-dependencies]
boa_engine = "*"
tempfile = "=3.27.0"
