[package]
name = "keyboard_presence"
version = "0.1.0"
edition = "2021"
publish = false

[dependencies]
tokio = { version = "1", features = ["macros", "process", "rt-multi-thread", "sync"] }
tokio-stream = "0.1"
tokio-udev = "*"
