[package]
name = "render_queue"
version = "0.1.0"
edition = "2021"
publish = false

[dependencies]
fastrand = "=1.9.0"
itertools = "=0.10.5"
log = "=0.4.35"
qmetaobject = "=0.2.10"
serde = { version = "=1.0.229", features = ["derive"] }
serde_json = "=1.0.154"
