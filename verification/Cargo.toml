[package]
name = "git_instafix"
version = "0.1.0"
edition = "2021"
publish = false

[dependencies]
anyhow = "*"
clap = { version = "*", features = ["derive", "env"] }
console = "*"
dialoguer = "*"
git2 = { version = "*", default-features = false }
syntect = "*"
termcolor = "*"
terminal_size = "*"
