[package]
name = "win32job"
version = "0.1.0"
edition = "2021"
publish = false

[dependencies]
winapi = { version = "=0.3.9", features = ["minwindef", "basetsd", "handleapi", "jobapi2", "winnt", "winbase", "processthreadsapi", "psapi", "errhandlingapi"] }
