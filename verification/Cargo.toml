[package]
name = "xr_locomotion"
version = "0.1.0"
edition = "2021"
publish = false

[dependencies]
bevy = { version = "=0.18.1", default-features = false, features = ["bevy_asset", "bevy_scene", "bevy_gltf", "gltf_animation", "bevy_animation", "morph_animation", "bevy_pbr", "bevy_gizmos", "bevy_log"] }
bevy_gizmos = { version = "=0.18.1", default-features = false }
bevy_mod_openxr = { version = "=0.5.0", default-features = false }
bevy_mod_xr = "=0.5.0"
bevy_xr_utils = "=0.5.0"
openxr = "*"
schminput = { version = "=0.5.0", default-features = false, features = ["xr"] }
