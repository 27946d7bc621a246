[package]
name = "tsparser"
version = "0.1.0"
edition = "2021"
publish = false

[dependencies]
anyhow = "1"
log = "0.4"
prost-types = "*"
serde = { version = "1", features = ["derive"] }
serde_json = "1"
swc_common = "*"
swc_ecma_ast = "*"
swc_ecma_loader = "*"
swc_ecma_parser = { version = "*", features = ["typescript"] }
swc_ecma_transforms_base = "*"
swc_ecma_visit = "*"
thiserror = "1"
txtar = "*"
