[package]
name = "async_chores"
version = "0.5.0"
edition = "2021"
publish = false

[dependencies]
async-io = "2"
clap = "4"
dotenv = "0.15"
futures = "0.3"
futures-lite = "2"
smol = "2"
tracing = "0.1"
tracing-subscriber = "0.3"
