[package]
name = "ndk_saf"
version = "0.1.0"
edition = "2021"
publish = false

[dependencies]
anyhow = "1"
jni = "0.21"
log = "0.4"
ndk-context = "0.1"
tracing-logcat = "*"
tracing-subscriber = "0.3"
