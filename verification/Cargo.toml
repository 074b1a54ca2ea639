[package]
name = "openpty"
version = "0.1.0"
edition = "2021"
publish = false

[dependencies]
errno = "*"
libc = "*"
rustix = { version = "*", features = ["fs", "process", "pty", "stdio", "termios"] }
