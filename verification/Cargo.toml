[package]
name = "portal_session"
version = "0.1.0"
edition = "2021"
publish = false

[dependencies]
chrono = "0.4"
ratatui = "0.29"
tui-big-text = "0.7"
