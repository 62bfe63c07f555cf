[package]
name = "asus_control"
version = "0.1.0"
edition = "2021"
publish = false

[dependencies]
anyhow = "*"
evdev = "*"
glib = "*"
gtk4 = "*"
libadwaita = "*"
