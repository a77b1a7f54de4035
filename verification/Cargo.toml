[package]
name = "rusty_doors"
version = "0.1.0"
edition = "2021"
publish = false

[dependencies]
libc = "0.2"
quote = "1"
syn = { version = "2", features = ["full"] }
