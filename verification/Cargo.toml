[package]
name = "rusty_doom"
version = "0.1.0"
edition = "2021"
publish = false

[dependencies]
anyhow = "1"
clap = { version = "4", features = ["derive"] }
libc = "0.2"
softbuffer = "0.4"
winit = "0.30"
