[package]
name = "egpws"
version = "0.1.0"
edition = "2021"
publish = false

[dependencies]
uom = "=0.38.0"
ndarray = "=0.16.1"
lookup-tables = "=0.1.0"
