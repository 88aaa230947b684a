[package]
name = "osm_pbf_reader"
version = "0.1.0"
edition = "2021"
publish = false

[dependencies]
bitflags = "*"
byteorder = "*"
crossbeam-queue = "*"
flate2 = "*"
osm-pbf-proto = "*"
thiserror = "*"
xz2 = "*"
