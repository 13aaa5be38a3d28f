[package]
name = "mqtt_command"
version = "0.1.0"
edition = "2021"
publish = false

[dependencies]
log = "0.4"
rumqtt = "0.31"
toml = "0.5"
