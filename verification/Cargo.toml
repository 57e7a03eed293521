[package]
name = "kms_surface"
version = "0.1.0"
edition = "2021"
publish = false

[dependencies]
drm = "0.9"
drm-ffi = "0.5"
drm-fourcc = "2.2"
nix = "0.26"
tracing = "0.1"
