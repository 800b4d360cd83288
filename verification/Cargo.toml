[package]
name = "coffee_maker_driver"
version = "0.1.0"
edition = "2021"
publish = false

[dependencies]
rumqttc = "*"
anyhow = "*"
