[package]
name = "nwg_controls"
version = "0.1.0"
edition = "2021"
publish = false

[dependencies]
winapi = { version = "0.3", features = ["winuser", "wingdi", "commctrl", "minwinbase", "windef", "minwindef", "basetsd", "shellapi", "d2d1", "dcommon", "dwrite", "winerror", "unknwnbase", "ntdef"] }
newline-converter = "0.2"
raw-window-handle = "0.3"
