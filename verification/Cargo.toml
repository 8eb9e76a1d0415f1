[package]
name = "typelock"
version = "0.1.0"
edition = "2021"
publish = false

[dependencies]
darling = "=0.21.3"
diesel = { version = "=2.3.14", default-features = false }
proc-macro2 = "=1.0.107"
quote = "=1.0.47"
syn = { version = "=2.0.119", features = ["full"] }
wincode = "=0.6.3"
