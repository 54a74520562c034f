[package]
name = "cliparse"
version = "0.1.0"
edition = "2021"
publish = false

[dependencies]
hashbrown = "=0.17.1"
allocator-api2 = "=0.2.21"
