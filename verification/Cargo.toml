[package]
name = "mls_sessions"
version = "0.1.0"
edition = "2021"
publish = false

[dependencies]
openmls_rust_crypto = "=0.6.0"
openmls_traits = "=0.6.0"
