[package]
name = "gm_maxminddb_geoip"
version = "0.1.0"
edition = "2021"
publish = false

[dependencies]
maxminddb = "=0.32.0"
gmod = { version = "=16.0.2", default-features = false }
thiserror = "=2.0.21"
