[package]
name = "vigil"
version = "0.1.0"
edition = "2021"
publish = false

[dependencies]
vte = "*"
nix = { version = "*", features = ["fs", "ioctl", "poll", "process", "signal", "socket", "term"] }
polling = "*"
signal-hook = "*"
tokio = { version = "*", features = ["rt", "net"] }
ttf-parser = "*"
unicode-width = "*"
alacritty_terminal = "*"
