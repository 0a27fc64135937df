[package]
name = "staccato"
version = "0.1.0"
edition = "2021"
publish = false

[dependencies]
smol_str = "*"
sdl3-sys = "*"
wgpu = "*"
raw-window-handle = "*"
pollster = "*"
thiserror = "*"
eyre = "*"
color-eyre = "*"
tracing = "*"
tracing-subscriber = "*"
tracing-appender = "*"
tracing-log = "*"
clap = { version = "*", features = ["derive"] }
owo-colors = "*"
humantime = "*"
ignore = "*"
exit-code = "*"
