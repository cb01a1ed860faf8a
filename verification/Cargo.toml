[package]
name = "bouncing_sprite"
version = "0.1.0"
edition = "2021"
publish = false

[dependencies]
rand = "0.8"
anyhow = "1"
image = { version = "0.25", default-features = false, features = ["png"] }
ratatui = "0.29"
russh = "*"
tokio = { version = "1", features = ["macros", "rt-multi-thread", "sync", "time"] }
