[package]
name = "websearch"
version = "0.1.0"
edition = "2021"
publish = false

[dependencies]
serde = { version = "=1.0.229", features = ["derive"] }
serde_json = "=1.0.151"
url = "=2.5.8"
thiserror = "=2.0.21"
reqwest = { version = "=0.13.5", default-features = false, features = ["json", "blocking", "form", "query"] }
tokio = { version = "=1.53.2", features = ["macros", "rt", "time"] }
async-trait = "=0.1.92"
clap = { version = "=4.6.7", features = ["derive"] }
colored = "=3.1.1"
quick-xml = { version = "=0.42.0", features = ["serialize"] }
scraper = "=0.27.0"
