[package]
name = "ui_state"
version = "0.1.0"
edition = "2021"
publish = false

[dependencies]
futures = "=0.3.34"
glib = "0.9"
gtk = "0.8"
log = "=0.4.34"
nvim-rs = "0.9"
