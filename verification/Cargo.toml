[package]
name = "embedded_dma"
version = "0.2.0"
edition = "2021"
publish = false

[dependencies]
stable_deref_trait = { version = "1.2", default-features = false }
