[package]
name = "bevy_mesh_terrain"
version = "0.1.0"
edition = "2021"
publish = false

[dependencies]
png = "0.17"
image = { version = "0.25", default-features = false, features = ["png"] }
serde = { version = "1", features = ["derive"] }
ron = "0.8"
bincode = "1"
rand = "0.8"
thiserror = "1"
anyhow = "1"
futures-lite = "2"
