[package]
name = "linux_desktop_manager"
version = "0.1.0"
edition = "2021"
publish = false

[dependencies]
lazy_static = "1.4"
libc = "0.2"
log = "0.4"
pam = "=0.7.0"
pam-sys = "=0.5.6"
rand = "=0.8.8"
users = "=0.11.0"
