[package]
name = "microw8"
version = "0.1.0"
edition = "2021"
publish = false

[dependencies]
wasmtime = { version = "=47.0.4", default-features = false, features = ["cranelift", "runtime", "std"] }
anyhow = "=1.0.104"
minifb = "=0.29.0"

[dev-dependencies]
wat = "=1.261.0"
