[package]
name = "gotify_desktop"
version = "0.1.0"
edition = "2021"
publish = false

[dependencies]
anyhow = "1"
backon = "1"
log = "0.4"
mio = { version = "1", features = ["os-poll", "os-ext"] }
notify-rust = "4"
serde = { version = "1", features = ["derive"] }
serde_json = "1"
shlex = "1"
simple_logger = "*"
thiserror = "*"
toml = "*"
tungstenite = { version = "*", features = ["native-tls"] }
ureq = { version = "2", features = ["native-tls"] }
url = { version = "2", features = ["serde"] }
xdg = "*"
