[package]
name = "mids_codec"
version = "0.1.0"
edition = "2021"
publish = false

[dependencies]
anyhow = "1"
byteorder = "1"
native-windows-gui = { version = "1", default-features = false, features = ["file-dialog"] }
serde = { version = "1", features = ["derive"] }
serde_json = "1"
thiserror = "1"
zip = { version = "0.6", default-features = false, features = ["deflate"] }
