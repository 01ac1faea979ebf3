[package]
name = "beans_engine"
version = "0.1.0"
edition = "2021"
publish = false

[dependencies]
regex = "=1.13.1"
iref = "=3.2.2"
iri-string = "=0.7.14"
base64 = "=0.22.1"
serde = { version = "=1.0.229", features = ["derive"] }
serde_json = "=1.0.154"
ash = "=0.38.0"
ash-window = "=0.13.0"
winit = "=0.30.13"
nalgebra-glm = "=0.19.0"
vk-mem = "=0.4.0"
imgui = "=0.12.0"
imgui-rs-vulkan-renderer = { version = "=1.16.0", features = ["dynamic-rendering"] }
imgui-winit-support = "=0.13.0"
shader-slang = "=0.1.0"
image = { version = "=0.25.10", default-features = false, features = ["bmp", "dds", "exr", "ff", "gif", "hdr", "ico", "jpeg", "png", "pnm", "qoi", "tga", "tiff", "webp"] }
memoffset = "=0.9.1"
