[package]
name = "temperature_graph"
version = "0.1.0"
edition = "2021"
publish = false

[dependencies]
plotters = { version = "=0.3.7", default-features = false, features = ["bitmap_backend", "line_series", "ab_glyph"] }
image = { version = "=0.24.9", default-features = false, features = ["png"] }
postgres = { version = "=0.19.14", features = ["with-chrono-0_4"] }
chrono = "=0.4.45"
structopt = "=0.3.26"
