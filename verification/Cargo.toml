[package]
name = "rmgba"
version = "0.1.0"
edition = "2021"
publish = false

[dependencies]
gtk4 = "*"
libadwaita = "*"
gio = "*"
gettext-rs = { version = "*", features = ["gettext-system"] }
cpal = "*"
ringbuf = "*"
mgba = "*"
