[package]
name = "dz6"
version = "0.1.0"
edition = "2021"
publish = false

[dependencies]
arboard = "*"
clap = { version = "*", features = ["derive"] }
encoding_rs = "*"
evalexpr = "*"
mmap-io = "*"
ratatui = "*"
regex = "*"
serde = { version = "*", features = ["derive"] }
shell-words = "*"
toml = "*"
tui-input = "*"
