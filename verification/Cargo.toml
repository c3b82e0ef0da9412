[package]
name = "haru"
version = "0.1.0"
edition = "2021"
publish = false

[dependencies]
base64 = "*"
dotenvy = "*"
image = "*"
pdfium-render = "*"
winapi = { version = "0.3", features = ["winuser", "shellapi", "minwindef"] }
