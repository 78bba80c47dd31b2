[package]
name = "euchre_tui"
version = "0.1.0"
edition = "2021"
publish = false

[dependencies]
rand = "0.8"
ratatui = "0.26"
crossterm = "0.27"
tui-textarea = "0.4"
name_maker = "*"
clap = { version = "4", features = ["derive"] }
