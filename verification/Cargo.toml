[package]
name = "lyrfin"
version = "0.1.0"
edition = "2021"
publish = false

[dependencies]
unicode-width = "=0.2.3"
serde_json = "=1.0.154"
crossbeam-channel = "=0.5.17"
ureq = { version = "=3.5.1", features = ["json"] }
log = "=0.4.35"
symphonia = { version = "0.5", default-features = false }
zbus = "3"
