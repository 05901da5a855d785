[package]
name = "powerprofiles"
version = "0.1.0"
edition = "2021"
publish = false

[dependencies]
zbus = { version = "5", default-features = false, features = ["tokio"] }
tokio = { version = "1", features = ["rt", "rt-multi-thread", "time", "macros"] }
futures-util = "0.3"
gtk = { version = "0.18", features = ["v3_24"] }
glib = "0.18"
gobject-sys = "0.18"
