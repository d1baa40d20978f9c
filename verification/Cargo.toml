[package]
name = "lemnos-linux"
version = "0.1.0"
edition = "2021"
publish = false

[dependencies]
gpio-cdev = "*"
i2cdev = "*"
inotify = { version = "*", default-features = false }
rusb = { version = "*", features = ["vendored"] }
serialport = { version = "*", default-features = false }
spidev = "*"
