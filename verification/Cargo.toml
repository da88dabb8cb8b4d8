[package]
name = "native_bridge"
version = "0.1.0"
edition = "2021"
publish = false

[dependencies]
url = "*"
tiny_http = "*"
discord-rich-presence = "*"
