[package]
name = "widget_kit"
version = "0.1.0"
edition = "2021"
publish = false

[dependencies]
colorsys = "=0.6.7"
crossbeam-channel = "0.5"
im = "=15.1.0"
tokio = { version = "1", features = ["rt", "sync", "time", "macros"] }
