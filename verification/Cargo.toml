[package]
name = "req_it_gui"
version = "0.1.0"
edition = "2021"
publish = false

[dependencies]
fastwebsockets = { version = "*", features = ["upgrade", "unstable-split"] }
url = "*"
serde_json = "*"
tokio = { version = "*", features = ["full"] }
hyper = { version = "1", features = ["client", "http1"] }
hyper-util = { version = "*", features = ["tokio"] }
http-body-util = "*"
bytes = "*"
anyhow = "*"
crossbeam = "*"
reqwest = { version = "*", default-features = false, features = ["json", "rustls-tls"] }
act_rs = "*"
corlib = "*"
libsync = "*"
gtk_estate = "*"
pretty_goodness = "*"
paste = "*"
