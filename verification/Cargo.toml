[package]
name = "vulkan_tasks"
version = "0.1.0"
edition = "2021"
publish = false

[dependencies]
ash = "*"
vk-mem = "*"
parking_lot = "*"
thiserror = "*"
log = "*"
