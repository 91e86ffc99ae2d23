[package]
name = "jam2026"
version = "0.1.0"
edition = "2021"
publish = false

[dependencies]
rand = "0.8"
rand_chacha = "0.3"
glam = "0.29"
aseprite = "*"
embedded-graphics = "0.8"
serde = { version = "1", features = ["derive"] }
log = "0.4"
axum = "0.8"
tokio = { version = "1", features = ["rt-multi-thread", "macros", "net"] }
tower-http = { version = "0.6", features = ["fs"] }
include_dir = "0.7"
webbrowser = "1"
