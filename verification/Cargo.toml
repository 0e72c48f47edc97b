[package]
name = "module_graph"
version = "0.1.0"
edition = "2021"
publish = false

[dependencies]
axum = "=0.8.9"
path-clean = "=1.0.1"
serde = { version = "=1.0.229", features = ["derive"] }
serde_json = "=1.0.154"
static_assertions = "=1.1.0"
swc_core = { version = "=82.2.0", features = ["common", "common_sourcemap", "ecma_ast", "ecma_codegen", "ecma_parser", "ecma_parser_typescript", "ecma_transforms", "ecma_transforms_react", "ecma_transforms_typescript", "ecma_visit"] }
swc_prefresh = "=22.0.0"
threadpool = "=1.8.1"
tokio = { version = "=1.54.1", features = ["full"] }
url = { version = "=2.5.8", features = ["serde"] }
urlencoding = "=2.1.3"
