[package]
name = "svf_dk"
version = "0.1.0"
edition = "2021"
publish = false

[dependencies]
num = "0.4"
vst = "0.3"
imgui = "0.7"
imgui-baseview = "*"
baseview = "*"
raw-window-handle = "0.3"
