[package]
name = "dino_runner"
version = "0.1.0"
edition = "2021"
publish = false

[dependencies]
bevy = { version = "=0.7.0", default-features = false, features = ["bevy_core_pipeline", "bevy_render", "bevy_sprite", "bevy_winit", "png", "x11"] }
# No code names darling. bevy's derive crates use syn 1 with its "full"
# feature and do not ask for it; darling's macro crate does, so that they build.
darling = "=0.13.4"
rand = "=0.8.8"
