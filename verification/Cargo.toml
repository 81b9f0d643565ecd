[package]
name = "control_sync"
version = "0.1.0"
edition = "2021"
publish = false

[dependencies]
glib = "0.10"
gtk = "0.9"
notify = "5"
