[package]
name = "typst-as-lib"
version = "0.1.0"
edition = "2021"
publish = false

[dependencies]
binstall-tar = "0.4"
chrono = "0.4"
comemo = "0.5"
dirs = "6"
ecow = "0.2"
flate2 = "1"
include_dir = "0.7"
thiserror = "2"
toml = "0.9"
typst = "0.14"
typst-kit = { version = "0.14", default-features = false, features = ["fonts"] }
typst-syntax = "0.14"
ureq = "3"
walkdir = "2"
