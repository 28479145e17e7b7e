[package]
name = "trencadis"
version = "0.1.0"
edition = "2021"
publish = false

[dependencies]
app_units = "=0.7.8"
gleam = "0.15"
glutin = "=0.21.2"
rusttype = "=0.8.3"
webrender = "0.70"
