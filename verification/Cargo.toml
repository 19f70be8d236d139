[package]
name = "shiny-hunter"
version = "0.1.0"
edition = "2021"
publish = false

[dependencies]
anyhow = "1"
clap = { version = "4", features = ["derive"] }
tracing = "0.1"
tracing-subscriber = "0.3"
opencv = "*"
embassy-usb = "*"
embassy-time = { version = "*", features = ["std"] }
embassy-sync = "*"
embassy-futures = "*"
picoserve = "*"
static_cell = "*"
