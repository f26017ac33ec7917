[package]
name = "ht32_panel"
version = "0.8.0"
edition = "2021"
publish = false

[dependencies]
png = "=0.17.16"
anyhow = "=1.0.104"
clap = { version = "=4.6.7", features = ["derive"] }
tokio = { version = "=1.54.1", features = ["full"] }
tokio-serial = "=5.5.0"
hidapi = { version = "=2.6.7", default-features = false, features = ["linux-native-basic-udev"] }
zbus = "=4.4.0"
serde = { version = "=1.0.229", features = ["derive"] }
toml = "=0.8.23"
serde_json = "=1.0.154"
tracing = "=0.1.44"
tracing-subscriber = { version = "=0.3.23", features = ["env-filter"] }
tiny-skia = "=0.11.4"
fontdue = "=0.9.5"
libc = "=0.2.191"
axum = "=0.7.9"
thiserror = "=1.0.69"
ksni = "0.3"
open = "5"
