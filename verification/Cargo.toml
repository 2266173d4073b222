[package]
name = "bevy_xpbd_3d_thrusters"
version = "0.1.0"
edition = "2021"
publish = false

[dependencies]
bevy = { version = "=0.12.1", default-features = false }
bevy_xpbd_3d = { version = "=0.3.3", default-features = false, features = ["3d", "f32"] }
derive_more = "=0.99.20"
