[package]
name = "overlay_render"
version = "0.1.0"
edition = "2021"
publish = false

[dependencies]
imgui = "*"
log = "*"

[dependencies.windows]
version = "*"
features = [
    "Win32_Foundation",
    "Win32_Graphics_Direct3D",
    "Win32_Graphics_Direct3D11",
    "Win32_Graphics_Dxgi",
    "Win32_Graphics_Dxgi_Common",
    "Win32_UI_WindowsAndMessaging",
]
