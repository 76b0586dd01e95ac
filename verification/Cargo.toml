[package]
name = "pic_compress"
version = "0.1.0"
edition = "2021"
publish = false

[dependencies]
bytemuck = "=1.25.2"
console_error_panic_hook = "=0.1.7"
imagequant = "=4.4.1"
imgref = "=1.12.3"
js-sys = "=0.3.106"
png = "=0.18.1"
ravif = { version = "=0.13.0", default-features = false }
rgb = "=0.8.53"
serde = { version = "=1.0.229", features = ["derive"] }
serde-wasm-bindgen = "=0.6.5"
thiserror = "=2.0.21"
wasm-bindgen = "=0.2.129"
