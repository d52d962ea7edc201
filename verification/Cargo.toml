[package]
name = "waylock"
version = "0.1.0"
edition = "2021"
publish = false

[dependencies]
clap = { version = "4", features = ["derive"] }
libc = "0.2"
nonstick = "*"
serde = { version = "1", features = ["derive"] }
thiserror = "*"
toml = "*"
xdg = "*"
