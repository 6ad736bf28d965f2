[package]
name = "keyecho"
version = "1.0.0"
edition = "2021"
publish = false

[dependencies]
reqwest = "*"
tar = "*"
plist = "*"
lru = "*"
anyhow = "1"
serde = { version = "1", features = ["derive"] }
serde_json = "1"
arc-swap = "1"
crossbeam-channel = "0.5"
rodio = "*"
rubato = "*"
symphonia = "*"
x11 = { version = "*", features = ["xlib", "xinput"] }

[dev-dependencies]
tempfile = "3"
