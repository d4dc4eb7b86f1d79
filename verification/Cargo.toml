[package]
name = "simplex_tui"
version = "0.1.0"
edition = "2021"
publish = false

[dependencies]
serde = { version = "1", features = ["derive"] }
serde_json = "1"
thiserror = "2"
libloading = "0.8"
libc = "0.2"
crossterm = "*"
ratatui = "*"
tokio = { version = "1", features = ["full"] }
color-eyre = "*"
directories = "*"
qrcode = "*"
tui-qrcode = "*"
