[package]
name = "rustc_version"
version = "0.3.3"
edition = "2021"

[dependencies]
semver = "0.11"
