[package]
name = "usbapi"
version = "0.1.0"
edition = "2021"
publish = false

[dependencies]
libc = "*"
log = "*"
nix = { version = "*", features = ["ioctl", "fs"] }
serde = { version = "*", features = ["derive"] }
signal-hook = "*"
sysfs-serde = "*"
