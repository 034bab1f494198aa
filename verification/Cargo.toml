[package]
name = "ssedge"
version = "0.1.0"
edition = "2021"
publish = false

[dependencies]
rusqlite = { version = "*", features = ["bundled"] }
r2d2 = "*"
r2d2_sqlite = "*"
openssh = "*"
serde = { version = "*", features = ["derive"] }
log = "*"
simplelog = "*"
