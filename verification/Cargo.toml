[package]
name = "wmbar"
version = "0.1.0"
edition = "2021"
publish = false

[dependencies]
x11 = { version = "2.21", features = ["xlib", "xft"] }
x11rb = "0.13"
