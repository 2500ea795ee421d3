[package]
name = "crabmander"
version = "0.1.0"
edition = "2021"
publish = false

[dependencies]
serde_json = "*"
serde = { version = "*", features = ["derive"] }
ratatui = "*"
crossterm = "*"
tokio = { version = "*", features = ["full"] }
tokio-util = "*"
git2 = { version = "*", default-features = false }
notify = "*"
opaline = "*"
ratatui-textarea = "*"
clap = { version = "*", features = ["derive", "cargo"] }
color-eyre = "*"
tracing = "*"
strum = { version = "*", features = ["derive"] }
zip = { version = "*", default-features = false, features = ["deflate"] }
tar = "*"
flate2 = "*"
bzip2 = "*"
xz2 = "*"
zstd = "*"
libc = "*"
