[package]
name = "crux"
version = "0.1.0"
edition = "2021"
publish = false

[dependencies]
ansi_term = "0.12"
dotenv = "0.15"
env_logger = "0.7"
log = "0.4"
