[package]
name = "roblox_install"
version = "0.1.0"
edition = "2021"
publish = false

[dependencies]
dirs = "=7.0.0"
winreg = "0.10.1"
