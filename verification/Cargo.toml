[package]
name = "plotr"
version = "0.1.0"
edition = "2021"
publish = false

[dependencies]
gtk4 = "0.6"
glib = "0.17"
gio = "0.17"
cairo-rs = "0.17"
