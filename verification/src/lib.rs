//! LuminaRemote core logic: frame differencing, video/QoS control, network
//! wire formats and the decisions of the connection and signalling layers.

pub mod capture;
pub mod addr;
pub mod stun;
pub mod protocol;
pub mod qos;
pub mod relay;
pub mod sessions;
pub mod signaling;
pub mod wire;
pub mod encoder;
pub mod keys;
pub mod handshake;
pub mod cert;
pub mod text;
pub mod input;
pub mod mdns;
pub mod ui;
pub mod manager;
pub mod host_session;
