[package]
name = "libfuzzer_simple_concolic"
version = "0.1.0"
edition = "2021"
publish = false

[dependencies]
libc = "0.2"
serde = { version = "1", features = ["derive"] }
clap = { version = "4", features = ["derive"] }
which = "*"
log = "0.4"
env_logger = "*"
mimalloc = { version = "*", default-features = false }
