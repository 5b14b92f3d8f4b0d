[package]
name = "window_host"
version = "0.1.0"
edition = "2021"
publish = false

[dependencies]
wgpu = { version = "=0.19.4", default-features = false }
jni = "=0.21.1"
ndk-context = "=0.1.1"
log = "=0.4.34"
pollster = "=0.3.0"
android_logger = "0.14"
