[package]
name = "tareas_push"
version = "0.1.0"
edition = "2021"
publish = false

[dependencies]
argon2 = "=0.5.3"
jsonwebtoken = "=9.3.1"
rand = "=0.9.5"
serde_json = "=1.0.151"
