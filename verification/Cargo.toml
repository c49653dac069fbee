[package]
name = "lighthouse_doom"
version = "0.1.0"
edition = "2021"
publish = false

[dependencies]
anyhow = "*"
clap = { version = "*", features = ["derive", "env"] }
doomgeneric = "*"
dotenvy = "*"
futures = "*"
lighthouse-client = "*"
sdl2 = "*"
tokio = { version = "*", features = ["rt-multi-thread", "sync", "macros", "time"] }
tracing = "*"
tracing-subscriber = "*"
