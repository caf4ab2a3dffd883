[package]
name = "arena_sim"
version = "0.1.0"
edition = "2021"
publish = false

[dependencies]
bevy = { version = "=0.17.3", default-features = false, features = ["std", "bevy_asset", "bevy_camera", "bevy_color", "bevy_image", "bevy_log", "bevy_sprite", "bevy_state", "bevy_window"] }
bevy_asset_loader = "0.24"
bevy_egui = { version = "0.37", default-features = false }
bevy_ggrs = "=0.19.0"
bevy_roll_safe = { version = "=0.6.0", default-features = false, features = ["bevy_ggrs", "math_determinism"] }
clap = { version = "=4.6.7", features = ["derive"] }
ggrs = "=0.11.1"
rand = "=0.9.5"
rand_xoshiro = "=0.7.0"
seahash = "=4.1.0"
