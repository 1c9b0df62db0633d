[package]
name = "zoop_engine"
version = "0.1.0"
edition = "2021"
publish = false

[dependencies]
bevy = { version = "=0.13.2", default-features = false }
bevy_ggrs = "=0.15.0"
bincode = "=1.3.3"
bytemuck = { version = "=1.25.2", features = ["derive"] }
ggrs = "=0.10.2"
serde = "1"
