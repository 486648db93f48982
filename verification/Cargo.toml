[package]
name = "gltf_ingest"
version = "0.1.0"
edition = "2021"
publish = false

[dependencies]
gltf = "=1.4.1"
specs = "=0.16.1"
specs-hierarchy = "=0.6.0"
