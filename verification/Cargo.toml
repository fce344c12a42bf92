[package]
name = "geo_contains"
version = "0.1.0"
edition = "2021"
publish = false

[dependencies]
geo = "=0.33.1"
h3o = { version = "=0.11.0", features = ["geo"] }
geojson = "=1.0.0"
serde_json = "=1.0.151"
thiserror = "=2.0.21"
rayon = "=1.12.0"
clap = { version = "=4.6.7", features = ["derive"] }
