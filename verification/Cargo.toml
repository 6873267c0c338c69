[package]
name = "gnome_chess_puzzles"
version = "0.1.0"
edition = "2021"
publish = false

[dependencies]
shakmaty = "=0.29.4"
rusqlite = "=0.41.1"
zstd = "=0.14.3"
libadwaita = { version = "=0.9.2", features = ["v1_5"] }
