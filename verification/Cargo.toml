[package]
name = "ort_base"
version = "0.1.0"
edition = "2021"
publish = false

[dependencies]
log = "=0.4.34"
ort = { version = "=2.0.0-rc.13", default-features = false, features = ["load-dynamic", "cuda", "coreml"] }
