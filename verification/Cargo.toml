[package]
name = "fftw_array"
version = "0.1.0"
edition = "2021"
publish = false

[dependencies]
fftw-sys = { version = "=0.8.0", default-features = false, features = ["system"] }
lazy_static = "=1.5.1"
num-complex = { version = "=0.4.6", features = ["serde"] }
num-traits = "=0.2.19"
serde = "=1.0.229"

[dev-dependencies]
serde_test = "1"
