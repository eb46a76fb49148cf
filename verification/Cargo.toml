[package]
name = "owr_power"
version = "0.1.0"
edition = "2021"
publish = false

[dependencies]
canadensis = "=0.6.1"
canadensis_can = "=0.6.0"
canadensis_data_types = "=0.6.0"
canadensis_encoding = "=0.6.0"
canadensis_linux = "=0.6.0"
heapless = "=0.9.3"
libm = "=0.2.16"
fugit = "=0.3.9"
defmt = "=1.2.0"
defmt-rtt = "=1.3.1"
panic-probe = "=1.0.0"
embedded-alloc = "=0.7.0"
cortex-m-rt = "=0.7.7"
stm32g4xx-hal = { version = "=0.1.0", features = ["stm32g474"] }
rand = "=0.10.3"
socketcan = "=3.6.2"
