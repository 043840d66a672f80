[package]
name = "autogamejournal"
version = "0.1.0"
edition = "2021"
publish = false

[dependencies]
anyhow = "1"
chrono = "0.4"
image = { version = "*", default-features = false, features = ["png"] }
serde = { version = "1", features = ["derive"] }
tao = "*"
toml = "*"
tray-icon = "*"
windows = { version = "*", features = ["Win32_Foundation", "Win32_UI_Input_KeyboardAndMouse"] }
windows-capture = "*"
winsafe = { version = "*", features = ["kernel", "user", "shell"] }
