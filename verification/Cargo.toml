[package]
name = "easy_logging"
version = "0.1.0"
edition = "2021"
publish = false

[dependencies]
ansi_term = "0.12"
atty = "0.2"
chrono = "0.4"
fern = "0.6"
lazy_static = "1"
log = "0.4"
