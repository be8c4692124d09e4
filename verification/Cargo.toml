[package]
name = "libmm"
version = "0.1.0"
edition = "2021"
publish = false

[dependencies]
git2 = { version = "*", default-features = false }
dirs = "*"
fs-err = "*"

[dev-dependencies]
tempfile = "*"
