[package]
name = "dmc2_archipelago"
version = "0.1.0"
edition = "2021"
publish = false

[dependencies]
anyhow = "=1.0.104"
archipelago_rs = "=3.0.1"
imgui-sys = "=0.12.0"
log = "=0.4.35"
serde = { version = "=1.0.229", features = ["derive"] }
serde_json = "=1.0.154"
windows = { version = "=0.58.0", features = ["Win32_Graphics_Direct3D11", "Win32_Graphics_Dxgi"] }
