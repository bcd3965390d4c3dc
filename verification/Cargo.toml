[package]
name = "bevy_mod_props"
version = "0.1.0"
edition = "2021"

[dependencies]
bevy_ecs = "*"
estr = "*"
thiserror = "*"
ustr = "*"
