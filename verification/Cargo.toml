[package]
name = "melo"
version = "0.1.0"
edition = "2021"
publish = false

[dependencies]
pulldown-cmark = { version = "0.13", default-features = false }
ratatui = { version = "*", features = ["unstable-rendered-line-info"] }
syntect = { version = "5", default-features = false, features = ["default-fancy"] }
crossterm = "*"
clap = { version = "4", features = ["derive"] }
color-eyre = "0.6"
notify = "*"
open = "5"
serde = { version = "1", features = ["derive"] }
toml = "*"
libc = "0.2"
image = { version = "0.25", default-features = false, features = ["png", "jpeg", "gif"] }
