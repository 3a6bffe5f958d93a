[package]
name = "conky_widget"
version = "0.1.0"
edition = "2021"
publish = false

[dependencies]
iced = { version = "=0.14.0", default-features = false, features = ["tokio", "x11"] }
sysinfo = "=0.39.6"
