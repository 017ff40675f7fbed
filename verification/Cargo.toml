[package]
name = "set_game_solver"
version = "0.1.0"
edition = "2021"
publish = false

[dependencies]
rand = "0.8"
rand_pcg = "0.3"
argh = "0.1"
crossterm = "0.25"
tui = "0.19"
