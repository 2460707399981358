[package]
name = "apple_music_rpc"
version = "0.1.0"
edition = "2021"
publish = false

[dependencies]
regex = "1"
urlencoding = "2"
serde = { version = "1", features = ["derive"] }
tokio = { version = "1", features = ["rt-multi-thread", "macros", "time", "sync", "process"] }
reqwest = { version = "0.12", default-features = false, features = ["json", "rustls-tls"] }
discord-rich-presence = "*"
image = { version = "*", default-features = false, features = ["ico"] }
tray-icon = "*"
tao = "*"
windows = { version = "*", features = ["Foundation", "Foundation_Collections", "Media_Control"] }
