[package]
name = "radio_control"
version = "0.1.0"
edition = "2021"
publish = false

[dependencies]
serde_json = "1"
tea5767 = "*"
embedded-hal = "0.2"
