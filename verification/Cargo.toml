[package]
name = "create_x"
version = "0.1.0"
edition = "2021"
publish = false

[dependencies]
anyhow = "*"
clap = { version = "*", features = ["derive"] }
fs_extra = "*"
inquire = "*"
which = "*"
xshell = "*"
