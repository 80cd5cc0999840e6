[package]
name = "wry_android"
version = "0.1.0"
edition = "2021"
publish = false

[dependencies]
cookie = "0.18"
crossbeam-channel = "0.5"
dpi = "0.1"
http = "1"
jni = "0.21"
libc = "0.2"
ndk = "0.9"
once_cell = "1"
raw-window-handle = "0.6"
tracing = "0.1"
