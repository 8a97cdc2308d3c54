[package]
name = "soksak-sidecar-terminal-wezterm"
version = "0.1.0"
edition = "2021"
publish = false

[dependencies]
base64 = "=0.22.1"
serde_json = "=1.0.154"
interprocess = "=2.4.7"
libc = "=0.2.191"
windows-sys = { version = "=0.61.2", features = ["Win32_Foundation", "Win32_System_Console"] }
termwiz = "=0.23.3"
