[package]
name = "smtc_monitor"
version = "0.1.0"
edition = "2021"
publish = false

[dependencies]
napi = { version = "2", default-features = false, features = ["napi4"] }
napi-derive = "2"
windows = { version = "0.58", features = ["Foundation", "Foundation_Collections", "Media", "Media_Control", "Storage_Streams"] }
