[package]
name = "zbus_body"
version = "0.1.0"
edition = "2021"
publish = false

[dependencies]
zvariant = "4"
serde = "1"
byteorder = "1"
