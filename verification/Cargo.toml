[package]
name = "render_harness"
version = "0.1.0"
edition = "2021"
publish = false

[dependencies]
sdl2 = "0.34"
gl = "0.14"
imgui = "0.7"
imgui-sdl2 = "0.14"
imgui-opengl-renderer = "0.11"
cgmath = "0.18"
c_str_macro = "1.0"
