[package]
name = "clipscan"
version = "0.1.0"
edition = "2021"
publish = false

[dependencies]
arboard = "=3.6.1"
image = { version = "=0.25.10", default-features = false }
ocrs = "=0.13.1"
rten = "=0.26.0"
rten-imageproc = "=0.26.0"
rxing = { version = "=0.8.3", default-features = false }

[dev-dependencies]
regex = "=1.13.1"
