[package]
name = "ili9341_smiley"
version = "0.1.0"
edition = "2021"
publish = false

[dependencies]
display-interface-spi = "0.5"
embedded-graphics = "0.8"
embedded-hal-bus = "0.2"
esp-idf-svc = "0.49"
log = "0.4"
mipidsi = "0.8"
