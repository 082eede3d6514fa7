[package]
name = "esp_disp_driver"
version = "0.1.0"
edition = "2021"
publish = false

[dependencies]
critical-section = "1.2.0"
defmt = "=1.0.1"
embassy-executor = "=0.9.1"
embassy-time = "=0.5.0"
esp-alloc = "=0.9.0"
esp-bootloader-esp-idf = { version = "=0.4.0", features = ["esp32s3"] }
esp-hal = { version = "=1.0.0", features = ["esp32s3", "unstable"] }
esp-rtos = { version = "=0.2.0", features = ["esp32s3", "embassy", "esp-alloc"] }
panic-rtt-target = { version = "=0.2.0", features = ["defmt"] }
rtt-target = { version = "=0.6.2", features = ["defmt"] }
static_cell = "=2.1.1"
