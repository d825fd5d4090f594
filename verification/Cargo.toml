[package]
name = "stereo_volume"
version = "0.1.0"
edition = "2021"
publish = false

[dependencies]
anyhow = "1"
winapi = { version = "0.3", features = ["combaseapi", "endpointvolume", "mmdeviceapi", "objbase", "winerror", "wtypesbase", "winnt"] }
