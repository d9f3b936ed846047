[package]
name = "dee"
version = "0.1.0"
edition = "2021"
publish = false

[dependencies]
rand_chacha = "=0.3.1"
rand_core = "=0.6.4"
serde = { version = "=1.0.229", features = ["derive"] }
serde_json = "=1.0.154"
sha2 = "=0.10.9"
wasmtime = { version = "=24.0.13", default-features = false, features = ["cranelift", "gc", "runtime", "std", "threads", "wat"] }
