[package]
name = "rcore_trace"
version = "0.1.0"
edition = "2021"
publish = false

[dependencies]
riscv = "0.10"
lazy_static = { version = "1.4", features = ["spin_no_std"] }
buddy_system_allocator = "0.9"
