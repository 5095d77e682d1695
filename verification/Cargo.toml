[package]
name = "rheia"
version = "0.1.0"
edition = "2021"
publish = false

[dependencies]
iced = { version = "0.13.1", default-features = false, features = ["tiny-skia", "highlighter", "tokio"] }
rfd = { version = "0.15", default-features = false, features = ["xdg-portal", "tokio"] }
tokio = { version = "1", features = ["fs"] }
