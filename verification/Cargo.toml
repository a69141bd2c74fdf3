[package]
name = "git_prompt"
version = "0.1.0"
edition = "2021"
publish = false

[dependencies]
gix = "*"
owo-colors = "*"
