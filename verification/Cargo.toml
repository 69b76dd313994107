[package]
name = "omarchy_theme"
version = "0.1.0"
edition = "2021"
publish = false

[dependencies]
material-colors = "=0.4.2"
toml = "=1.2.1"
notify = "=8.2.1"
