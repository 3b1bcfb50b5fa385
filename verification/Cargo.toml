[package]
name = "deckcore"
version = "0.1.0"
edition = "2021"
publish = false

[dependencies]
image = "=0.25.10"
hidapi = { version = "=2.6.7", default-features = false, features = ["linux-native-basic-udev"] }
serde = { version = "=1.0.229", features = ["derive"] }
serde_json = "=1.0.151"
ab_glyph = "=0.2.32"
imageproc = "=0.27.0"
reqwest = { version = "=0.13.5", default-features = false, features = ["blocking", "json"] }
