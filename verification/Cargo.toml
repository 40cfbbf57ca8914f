[package]
name = "esp_bt"
version = "0.1.0"
edition = "2021"
publish = false

[dependencies]
bt-hci = "=0.6.0"
embassy-sync = "=0.8.0"
embedded-io = "0.6"
log = "=0.4.35"
num_enum = "=0.7.6"
esp-idf-sys = "=0.38.1"
esp-idf-hal = "=0.47.0"
