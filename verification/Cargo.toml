[package]
name = "md2png"
version = "0.1.0"
edition = "2021"
publish = false

[dependencies]
pulldown-cmark = { version = "*", default-features = false, features = ["html"] }
arboard = { version = "*", default-features = false }
headless_chrome = "*"
msgbox = "*"
winreg = "*"
