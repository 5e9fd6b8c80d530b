[package]
name = "git_flow"
version = "0.1.0"
edition = "2021"
publish = false

[dependencies]
chrono = "*"
version-compare = "*"
regex = "*"
cmd_lib = "*"
colour = "*"
inquire = "*"
tabled = "*"
