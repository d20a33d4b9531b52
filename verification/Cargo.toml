[package]
name = "keyed_hash"
version = "0.1.0"
edition = "2021"
publish = false

[dependencies]
anyhow = "=1.0.104"
dryoc = "=2.0.0"
libsodium-sys-stable = "=1.24.3"
static_assertions = "=1.1.0"
