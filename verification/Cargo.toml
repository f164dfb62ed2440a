[package]
name = "rust_lldb_visual_debugger"
version = "0.1.0"
edition = "2021"
publish = false

[dependencies]
egui = { version = "=0.29.1", default-features = false, features = ["default_fonts"] }
