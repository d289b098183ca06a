[package]
name = "grammar"
version = "0.1.0"
edition = "2021"
publish = false

[dependencies]
indexmap = "*"
async-channel = "*"
async-mutex = "*"
async-trait = "*"
displaydoc = "*"
thiserror = "*"
regex = "*"
uuid = { version = "*", features = ["v4"] }
syn = { version = "*", features = ["full"] }
quote = "*"
proc-macro2 = "*"
