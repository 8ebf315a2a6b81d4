[package]
name = "dungeon_maze"
version = "0.1.0"
edition = "2021"
publish = false

[dependencies]
strum = "0.26"
