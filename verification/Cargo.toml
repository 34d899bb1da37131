[package]
name = "bevy_window_sdl2_backend"
version = "0.1.0"
edition = "2021"
publish = false

[dependencies]
bevy_app = "=0.17.3"
bevy_ecs = "=0.17.3"
bevy_input = "=0.17.3"
bevy_log = "=0.17.3"
bevy_math = "=0.17.3"
bevy_platform = "=0.17.3"
bevy_window = "=0.17.3"
raw-window-handle = "0.6"
sdl2 = { version = "=0.38.0", features = ["raw-window-handle"] }
