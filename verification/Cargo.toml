[package]
name = "command_error"
version = "0.1.0"
edition = "2021"
publish = false

[dependencies]
dyn-clone = "1"
miette = "7"
process-wrap = { version = "8", features = ["std"] }
shell-words = "1"
tracing = "0.1"
utf8-command = "1"
