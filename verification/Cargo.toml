[package]
name = "dir-view"
version = "0.1.0"
edition = "2021"
publish = false

[dependencies]
cap-std = { version = "*", features = ["fs_utf8"] }
cap-primitives = "*"
cap-fs-ext = { version = "*", features = ["fs_utf8"] }
camino = "*"
rustix = { version = "*", features = ["fs"] }

[dev-dependencies]
cap-tempfile = "*"
