[package]
name = "bevy_wasm_pack"
version = "0.1.0"
edition = "2021"
publish = false

[dependencies]
bytesize = "=2.7.0"
cargo_metadata = "=0.23.1"
env_logger = "=0.11.11"
lazy_static = "=1.5.1"
log = "=0.4.34"
xtask-wasm = { version = "0.1", features = ["wasm-opt"] }
