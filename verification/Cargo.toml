[package]
name = "redirect"
version = "0.1.0"
edition = "2021"
publish = false

[dependencies]
smallvec = "1"
winapi = "0.2"
d3d12-sys = "0.2"
dxgi-sys = "0.2"
dxguid-sys = "0.2"
d3dcompiler-sys = "0.2"
kernel32-sys = "0.2"
