[package]
name = "quanta"
version = "0.1.0"
edition = "2021"
publish = false

[dependencies]
raw-cpuid = "=11.6.0"
libc = "=0.2.191"
once_cell = "=1.21.4"
core_affinity = "=0.8.3"
atomic-shim = "=0.2.0"
metrics-core = "=0.5.2"
winapi = { version = "=0.3.9", features = ["profileapi", "winnt"] }
mach2 = "0.4"
wasi = "0.11"
