[package]
name = "maze_games"
version = "0.1.0"
edition = "2021"
publish = false

[dependencies]
lazy_static = "=1.5.1"
pc-keyboard = "=0.8.0"
pluggable_interrupt_os = "=0.5.3"
spin = "=0.9.9"
