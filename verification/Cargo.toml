[package]
name = "wasi_common"
version = "0.1.0"
edition = "2021"
publish = false

[dependencies]
libc = "0.2"
nix = "0.26"
winapi = { version = "0.3", features = ["errhandlingapi", "fileapi", "handleapi", "winbase", "winerror", "winnt"] }
