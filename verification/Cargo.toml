[package]
name = "cancel-repro"
version = "0.1.0"
edition = "2021"
publish = false

[dependencies]
anyhow = "=1.0.104"
async-bb8-diesel = "0.1.0"
bb8 = "0.8"
diesel = { version = "2.0", features = ["postgres"] }
dropshot = "0.9"
http = "0.2"
slog = "2"
tokio = { version = "1", features = ["full"] }
