[package]
name = "delta_kernel_ffi"
version = "0.1.0"
edition = "2021"
publish = false

[dependencies]
delta_kernel = { version = "=0.20.0", default-features = false, features = ["arrow", "default-engine-rustls", "catalog-managed", "internal-api"] }
url = "=2.5.8"
pollster = "=1.0.1"
tracing = "=0.1.44"

[dev-dependencies]
object_store = "=0.12.5"
