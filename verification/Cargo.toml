[package]
name = "cevio"
version = "0.1.0"
edition = "2021"
publish = false

[dependencies]
parking_lot = "=0.12.5"
serde = { version = "=1.0.229", features = ["derive"] }
thiserror = "=2.0.21"
windows = { version = "=0.61.3", features = ["Win32_Foundation", "Win32_System_Com", "Win32_System_Ole", "Win32_System_Variant"] }

[dev-dependencies]
bounded-integer = { version = "=0.5.8", features = ["types"] }
