[package]
name = "keytui"
version = "0.1.0"
edition = "2021"
publish = false

[dependencies]
anyhow = "*"
colorsys = "=0.7.3"
copypasta-ext = "=0.4.4"
crossterm = "=0.25.0"
tui = "=0.19.0"
unicode-width = "*"
