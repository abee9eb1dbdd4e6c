[package]
name = "m6502"
version = "0.1.0"
edition = "2021"
publish = false

[dependencies]
egui = "0.21"
egui-macroquad = "0.15"
macroquad = "0.3"
rand = "0.8"
log = "0.4"
env_logger = "0.10"
thiserror = "1"
