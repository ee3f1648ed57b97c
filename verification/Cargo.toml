[package]
name = "rdpmib"
version = "0.1.0"
edition = "2021"
publish = false

[dependencies]
anyhow = "1"
base64 = "0.22"
dbus = "0.9"
dbus-crossroads = "0.5"
reqwest = { version = "0.12", default-features = false, features = ["blocking", "json", "rustls-tls"] }
serde = { version = "1", features = ["derive"] }
serde_json = "1"
tao = "0.30"
thiserror = "1"
url = "2"
wry = "0.45"
xdg = "3"
