[package]
name = "status_bar"
version = "0.1.0"
edition = "2021"
publish = false

[dependencies]
block2 = "0.3"
icrate = { version = "0.1", features = ["AppKit", "AppKit_all", "Foundation", "Foundation_all"] }
objc2 = "0.4"
parking_lot = "0.12"
reqwest = { version = "0.11", default-features = false, features = ["json"] }
serde_json = "1"
tokio = { version = "1", features = ["macros", "rt-multi-thread", "time"] }
webbrowser = "0.8"
