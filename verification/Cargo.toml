[package]
name = "orbutils"
version = "0.1.0"
edition = "2021"
publish = false

[dependencies]
orbclient = "=0.3.55"
orbimage = "=0.1.17"
orbtk = "=0.2.31"
redox_syscall = "=0.2.16"
