[package]
name = "zencodecs"
version = "0.1.0"
edition = "2021"
publish = false

[dependencies]
anyhow = "=1.0.104"
clap = { version = "=4.6.7", features = ["derive"] }
enough = "=0.4.5"
glob = "=0.3.4"
imgref = "=1.12.3"
indicatif = "=0.18.6"
jxl = "=0.8.0"
png = "=0.18.1"
ravif = { version = "=0.13.0", default-features = false }
rayon = "=1.12.0"
rgb = "=0.8.53"
serde = { version = "=1.0.229", features = ["derive"] }
serde_json = "=1.0.154"
zenavif = { version = "=0.1.6", features = ["encode"] }
zengif = "=0.7.3"
zenjpeg = "=0.8.4"
zenjxl = "=0.2.1"
zenresize = "=0.3.1"
zenwebp = "=0.4.6"
