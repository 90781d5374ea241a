[package]
name = "player_sync"
version = "0.1.0"
edition = "2021"
publish = false

[dependencies]
bevy = { version = "0.15", default-features = false, features = ["bevy_sprite", "bevy_core_pipeline", "bevy_render", "bevy_asset"] }
crossbeam = "0.8"
serde = { version = "1", features = ["derive"] }
tokio = { version = "1", features = ["rt-multi-thread", "macros"] }
