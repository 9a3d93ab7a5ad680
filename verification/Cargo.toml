[package]
name = "snow-imagewriter"
version = "0.1.0"
edition = "2021"
publish = false

[dependencies]
anyhow = "1"
clap = { version = "4", features = ["derive"] }
ctrlc = "3"
env_logger = "0.11"
image = { version = "0.25", default-features = false, features = ["png"] }
libc = "0.2"
log = "0.4"
printpdf = "0.7"
