[package]
name = "terser_options"
version = "0.1.0"
edition = "2021"
publish = false

[dependencies]
fxhash = "=0.2.1"
serde = { version = "=1.0.229", features = ["derive"] }
serde_json = "=1.0.154"
swc_atoms = "*"
swc_common = "*"
swc_ecma_ast = "*"
