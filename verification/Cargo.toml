[package]
name = "canvas_editor"
version = "0.1.0"
edition = "2021"
publish = false

[dependencies]
uuid = { version = "=1.29.0", features = ["v4"] }
once_cell = "=1.21.4"
im = "=15.1.0"

[dev-dependencies]
undo = "=0.51.0"
