[package]
name = "music_player"
version = "0.1.0"
edition = "2021"
publish = false

[dependencies]
anyhow = "1"
crossterm = "0.28"
ctrlc = "3"
env_logger = "0.11"
log = "0.4"
mp3-duration = "0.1"
ratatui = "0.29"
rodio = "0.20"
walkdir = "2"
