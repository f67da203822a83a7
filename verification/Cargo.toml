[package]
name = "logcontrol"
version = "0.1.0"
edition = "2021"
publish = false

[dependencies]
log = "*"
systemd-journal-logger = "*"
tracing = "*"
tracing-subscriber = "*"
tracing-journald = "*"
zbus = "*"
