[package]
name = "pendulum"
version = "0.1.0"
edition = "2021"
publish = false

[dependencies]
nalgebra = "=0.35.0"
rand = "=0.10.3"
libm = "=0.2.16"
bytemuck = "=1.25.2"
rustc_apfloat = "=0.2.3"
serde = { version = "=1.0.229", features = ["derive"] }
serde-wasm-bindgen = "=0.6.5"
wasm-bindgen = "=0.2.129"
