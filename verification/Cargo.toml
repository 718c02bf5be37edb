[package]
name = "imgui_timeline"
version = "0.1.0"
edition = "2021"
publish = false

[dependencies]
chrono = { version = "=0.4.45", default-features = false, features = ["std"] }
cgmath = "=0.18.0"
imgui = { version = "=0.11.0", features = ["tables-api"] }
