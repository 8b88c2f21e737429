[package]
name = "retrohost"
version = "0.1.0"
edition = "2021"
publish = false

[dependencies]
fast_image_resize = "2"
png = "0.17"
libloading = "0.8"
libretro-sys = "0.1"
tokio = { version = "1", features = ["full"] }
serde = { version = "1", features = ["derive"] }
serde_json = "1"
nix = { version = "0.29", features = ["signal", "fs", "process"] }
sysinfo = "*"
evdev = "*"
i2cdev = "*"
