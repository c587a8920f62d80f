[package]
name = "detaxine-ui"
version = "0.1.0"
edition = "2021"
publish = false

[dependencies]
anyhow = "1"
toml_edit = "*"
tailwind_fuse = "*"
leptos = "0.8"
leptos_icons = "*"
icondata = "*"
