[package]
name = "mppdarkgst"
version = "0.1.0"
edition = "2021"
publish = false

[dependencies]
glib = "0.20"
gstreamer = "0.23"
gstreamer-video = "0.23"
libc = "0.2"
once_cell = "1"
