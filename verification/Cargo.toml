[package]
name = "uuid"
version = "0.1.0"
edition = "2021"
publish = false

[dependencies]
byteorder = "=1.5.0"
chrono = "=0.4.45"
getrandom = "=0.3.4"
mac_address = "=1.2.1"
md5 = "=0.7.0"
serde = { version = "1", default-features = false, features = ["std"] }
sha1 = "=0.10.7"
