[package]
name = "hot_plate_reflow"
version = "0.1.0"
edition = "2021"
publish = false

[dependencies]
itoa = "=1.0.18"
heapless = "=0.9.3"
pid = "=4.0.0"
ina219 = "=0.2.1"
embedded-graphics = "=0.8.2"
embedded-bitmap-fonts = "=0.1.1"
display-interface-i2c = "=0.5.0"
oled_async = "=0.2.1"
embedded-hal = "=0.2.7"
static_cell = "=2.1.1"
defmt = "=1.2.0"
defmt-rtt = "=1.3.1"
panic-probe = "=1.0.0"
embassy-sync = "=0.8.0"
embassy-time = "=0.5.1"
embassy-futures = "=0.1.2"
embassy-executor = "=0.10.0"
embassy-embedded-hal = "=0.6.0"
embassy-stm32 = { version = "=0.6.0", features = ["stm32c071fb", "exti", "time-driver-any", "unstable-pac"] }
embedded-alloc = "=0.7.0"
