[package]
name = "kbd_backlight"
version = "0.1.0"
edition = "2021"
publish = false

[dependencies]
futures = "*"
iced_futures = "*"
tokio = { version = "*", features = ["sync"] }
upower_dbus = "*"
zbus = "*"
