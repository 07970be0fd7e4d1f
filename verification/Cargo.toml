[package]
name = "autocxx-gen"
version = "0.1.0"
edition = "2021"
publish = false

[dependencies]
autocxx-engine = "=0.5.1"
clap = "=2.34.0"
indoc = "=1.0.9"
proc-macro2 = "=1.0.107"
quote = "=1.0.47"
