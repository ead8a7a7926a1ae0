[package]
name = "foreground_listener"
version = "0.1.0"
edition = "2021"
publish = false

[dependencies]
neon = "*"
once_cell = "1"
tokio = { version = "1", features = ["rt", "rt-multi-thread", "sync"] }
wineventhook = "*"
