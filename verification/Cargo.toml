[package]
name = "vmw_backdoor"
version = "0.2.0"
edition = "2021"
publish = false

[dependencies]
cfg-if = "1"
errno = "0.3"
libc = "0.2"
log = "0.4"
thiserror = "1"
