[package]
name = "fsquirrel"
version = "0.1.0"
edition = "2021"
publish = false

[dependencies]
xattr = { version = "=1.6.1", default-features = false }
windows = { version = "0.58", features = ["Win32_Foundation", "Win32_Storage_FileSystem"] }

[dev-dependencies]
tempfile = "=3.27.0"
