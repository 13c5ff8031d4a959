[package]
name = "post_maker"
version = "0.1.0"
edition = "2021"
publish = false

[dependencies]
bichannel = "*"
dirs = "4"
fltk = "1"
fltk-theme = "*"
image = "0.24"
imageproc = "0.23"
infer = "*"
log = "0.4"
mozjpeg = "0.9"
rusttype = "0.9"
serde = { version = "1", features = ["derive"] }
serde_json = "1"
simplelog = "0.12"
textwrap = "*"
webbrowser = "*"
webp = "0.2"
