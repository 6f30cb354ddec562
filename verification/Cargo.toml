[package]
name = "webglm"
version = "0.1.0"
edition = "2021"

[dependencies]
num = "=0.4.3"
rustc_apfloat = "=0.2.3"
ieee-apsqrt = "=0.1.1"
