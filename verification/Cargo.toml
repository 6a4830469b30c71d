[package]
name = "macropad_sequencer"
version = "0.1.0"
edition = "2021"
publish = false

[dependencies]
itoa = "=1.0.18"
midi-convert = "=0.2.0"
usbd-midi = "=0.5.1"
embedded-graphics = "=0.8.2"
smart-leds = "=0.4.0"
ws2812-spi = "=0.5.1"
sh1106 = "=0.5.0"
log = "=0.4.35"
embassy-executor = "=0.10.0"
embassy-futures = "=0.1.2"
embassy-rp = { version = "=0.10.0", features = ["rp2040", "time-driver", "critical-section-impl"] }
embassy-sync = "=0.8.0"
embassy-time = "=0.5.1"
embassy-usb = "=0.6.0"
embassy-usb-logger = "=0.6.0"
embedded-alloc = "*"
defmt-rtt = "=1.3.1"
panic-probe = "=1.0.0"
