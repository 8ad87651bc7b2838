[package]
name = "rpg_character"
version = "0.1.0"
edition = "2021"
publish = false

[dependencies]
godot = "=0.5.5"
thiserror = "=2.0.21"
tracing = "=0.1.44"
