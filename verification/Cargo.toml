[package]
name = "stellar-registry"
version = "0.1.0"
edition = "2021"
publish = false

[dependencies]
semver = "=1.0.28"
sha2 = "=0.10.9"
stellar-strkey = "=1.0.0"
stellar-xdr = "=30.0.0"
syn = { version = "=2.0.119", features = ["full"] }
quote = "=1.0.47"
proc-macro2 = "=1.0.107"
thiserror = "=2.0.21"
clap = { version = "=4.6.7", features = ["derive"] }
stellar-build = "*"
