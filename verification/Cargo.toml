[package]
name = "rusty_esp_arduino"
version = "0.1.0"
edition = "2021"
publish = false

[dependencies]
rusty_esp_core = "=0.1.4"
rusty_esp_mid-core = "=0.1.4"
rusty_esp_signal-core = "=0.3.1"
rusty_esp_iroh-core = "=0.1.1"
rusty_esp_audio-core = "=0.1.2"
rusty_esp_image-core = "=0.1.2"
rusty_esp_video-core = "=0.1.6"
rusty_esp_video-esp = { version = "=0.1.6", features = ["std"] }
rusty_jpeg = "=0.4.8"
rand = "=0.9.5"
