[package]
name = "remote_control"
version = "0.1.0"
edition = "2021"
publish = false

[dependencies]
csv = "=1.4.0"
webbrowser = "=1.2.4"
serialport = { version = "=4.10.1", default-features = false }
enigo = "=0.6.1"
tokio = { version = "=1.53.2", features = ["rt-multi-thread", "macros", "time", "sync"] }
