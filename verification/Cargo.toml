[package]
name = "listenmoe"
version = "1.0.0"
edition = "2021"
publish = false

[dependencies]
semver = "=1.0.28"
time = { version = "=0.3.55", features = ["parsing"] }
libpulse-binding = "=2.30.1"
serde = { version = "=1.0.229", features = ["derive"] }
serde_json = "=1.0.154"
dirs-next = "=2.0.0"
tungstenite = { version = "=0.30.0", features = ["rustls-tls-webpki-roots"] }
reqwest = { version = "=0.12.28", default-features = false, features = ["blocking", "rustls-tls"] }
rodio = { version = "=0.23.0", default-features = false, features = ["playback"] }
symphonia = { version = "=0.6.1", default-features = false, features = ["ogg", "vorbis"] }
discord-rich-presence = "=1.1.0"
mpris-server = "=0.11.0"
gettext-rs = { version = "=0.8.0", features = ["gettext-system"] }
libadwaita = { version = "=0.9.2", features = ["v1_5"] }
