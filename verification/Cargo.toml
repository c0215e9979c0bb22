[package]
name = "thermocam"
version = "0.1.0"
edition = "2021"
publish = false

[dependencies]
anyhow = "*"
clap = { version = "*", features = ["derive"] }
event-listener = "*"
libftd2xx = "*"
ftdi-embedded-hal = { version = "*", features = ["libftd2xx"] }
mlx9064x = "*"
