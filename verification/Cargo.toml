[package]
name = "darktide_local_server"
version = "0.1.0"
edition = "2021"
publish = false

[dependencies]
crossbeam = "0.8"
ddsfile = "0.5"
image = "0.24"
image_dds = "0.1"
lofty = "0.18"
mime_guess = "2"
rayon = "1"
serde = { version = "1", features = ["derive"] }
serde_json = "1"
sysinfo = "0.29"
tiny_http = "0.12"
url = "2"
winapi = { version = "0.3", features = ["errhandlingapi", "handleapi", "processthreadsapi", "synchapi", "winbase", "winerror", "winnt"] }
