[package]
name = "git-single-object-fetch"
version = "0.1.0"
edition = "2021"
publish = false

[dependencies]
clap = { version = "=4.6.7", features = ["derive"] }
gix-features = { version = "=0.48.1", features = ["zlib"] }
gix-hash = { version = "=0.28.1", features = ["sha1"] }
gix-object = "=0.66.1"
gix-pack = "=0.77.0"
gix-packetline = { version = "=0.24.1", features = ["blocking-io"] }
gix-protocol = { version = "=0.68.0", features = ["blocking-client"] }
gix-url = "=0.40.1"
os_pipe = "=1.2.3"
thiserror = "=1.0.69"
