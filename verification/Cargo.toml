[package]
name = "termchat"
version = "0.1.0"
edition = "2021"
publish = false

[dependencies]
message-io = { version = "=0.19.0", default-features = false, features = ["tcp", "udp"] }
crossterm = "=0.25.0"
tui = { version = "=0.19.0", default-features = false, features = ["crossterm"] }
minifb = "=0.29.0"
v4l = "=0.14.0"
serde = { version = "1", features = ["derive"] }
bincode = "1"
