[package]
name = "livesplit_render"
version = "0.1.0"
edition = "2021"
publish = false

[dependencies]
bytemuck = { version = "1", default-features = false }
image = { version = "0.25", default-features = false, features = ["png"] }
simdutf8 = { version = "0.1", default-features = false }
tiny-skia = { version = "0.11", default-features = false, features = ["std", "simd"] }
tiny-skia-path = { version = "0.11", default-features = false, features = ["std"] }
