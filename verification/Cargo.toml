[package]
name = "diesel-connection"
version = "0.1.0"
edition = "2021"
publish = false

[dependencies]
diesel = { version = "2", default-features = false, features = ["r2d2", "sqlite", "postgres"] }
env-url = "*"
once_cell = "1"
static_init = "1"
dotenvy = "0.15"
