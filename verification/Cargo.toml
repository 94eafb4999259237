[package]
name = "runjs"
version = "0.1.0"
edition = "2021"
publish = false

[dependencies]
deno_core = "0.171"
tokio = { version = "1", features = ["fs", "rt"] }
