[package]
name = "matchbox_socket"
version = "0.1.0"
edition = "2021"
publish = false

[dependencies]
futures = "0.3"
futures-channel = "0.3"
futures-timer = "3"
futures-util = "0.3"
js-sys = "0.3"
log = "0.4"
serde = { version = "1", features = ["derive"] }
serde-wasm-bindgen = "*"
wasm-bindgen = "0.2"
wasm-bindgen-futures = "0.4"
web-sys = { version = "0.3", features = ["MessageEvent", "RtcConfiguration", "RtcDataChannel", "RtcDataChannelInit", "RtcDataChannelType", "RtcIceCandidate", "RtcIceCandidateInit", "RtcPeerConnection", "RtcSdpType", "RtcSessionDescriptionInit"] }
