[package]
name = "hall_monitor"
version = "0.1.0"
edition = "2021"
publish = false

[dependencies]
nb = "1"
defmt = "0.3"
defmt-rtt = "0.4"
embassy-executor = { version = "0.5", features = ["task-arena-size-40960"] }
embassy-time = { version = "0.3", features = ["generic-queue-8"] }
esp-alloc = "0.5"
esp-backtrace = { version = "0.13", features = ["esp32c3", "exception-handler", "panic-handler", "println"] }
esp-hal = { version = "0.19", features = ["esp32c3", "async"] }
esp-hal-embassy = { version = "0.2", features = ["esp32c3"] }
esp-println = { version = "0.10", features = ["esp32c3"] }
