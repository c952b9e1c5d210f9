[package]
name = "dashboard_feeds"
version = "0.1.0"
edition = "2021"
publish = false

[dependencies]
rss = "=2.1.2"
atom_syndication = "=0.12.10"
chrono = "=0.4.45"
textwrap = { version = "=0.16.4", features = ["terminal_size"] }
owo-colors = "=4.4.0"
clap = { version = "=4.6.7", features = ["derive"] }
directories = "=6.0.0"
kdl = "=6.7.1"
miette = { version = "=7.6.0", features = ["fancy"] }
reqwest = { version = "=0.12.28", default-features = false, features = ["gzip", "brotli", "rustls-tls"] }
reqwest-middleware = "=0.4.2"
http-cache-reqwest = "=0.16.0"
supports-hyperlinks = "=3.2.0"
thiserror = "=2.0.21"
tokio = { version = "=1.53.2", features = ["rt-multi-thread", "macros"] }
