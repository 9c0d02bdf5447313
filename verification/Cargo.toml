[package]
name = "info_display"
version = "0.1.0"
edition = "2021"
publish = false

[dependencies]
anyhow = "1"
daemonize = "*"
embedded-graphics = "0.8"
embedded-hal = "1"
get_if_addrs = "*"
hostname = "*"
linux-embedded-hal = "*"
ssd1306 = "*"
sysinfo = "*"
