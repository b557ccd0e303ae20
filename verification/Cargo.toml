[package]
name = "arena_duel"
version = "0.1.0"
edition = "2021"
publish = false

[dependencies]
rand = "=0.8.8"
nalgebra = "=0.30.1"
# bevy_rapier2d 0.12.1 is written against this pre-release of rapier2d and
# does not compile with the final 0.12.0, which cargo would pick otherwise.
rapier2d = "=0.12.0-alpha.0"
bevy_rapier2d = "=0.12.1"
bevy = { version = "=0.6.1", default-features = false, features = ["bevy_winit", "render", "png", "x11"] }
# bevy's audio, named on its own so that the rest of bevy builds on a machine
# without the ALSA development files.
bevy_audio = { version = "=0.6.0", default-features = false, features = ["vorbis"] }
