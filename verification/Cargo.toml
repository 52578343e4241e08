[package]
name = "init"
version = "0.1.0"
edition = "2021"
publish = false

[dependencies]
libc = "*"
log = "*"
env_logger = "*"
mio = { version = "*", features = ["os-poll", "net"] }
tokio = { version = "*", features = ["macros", "rt-multi-thread", "time"] }
