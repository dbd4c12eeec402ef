[package]
name = "pjs_rs"
version = "0.1.0"
edition = "2021"
publish = false

[dependencies]
serde_json = "1"
deno_ast = { version = "*", features = ["transpiling"] }
deno_core = "*"
tokio = { version = "1", features = ["rt", "time"] }
log = "0.4"
