[package]
name = "yt_chanvids"
version = "0.1.0"
edition = "2021"
publish = false

[dependencies]
serde_json = "1"
urlencoding = "*"
attohttpc = { version = "*", default-features = false }
getopts = "*"
