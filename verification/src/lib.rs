//! The verified core of Sync.Mesh: domain values (node identity, health),
//! the status service's state, the wire mapping of health, the data
//! directory acquisition protocol, the handshake format, and the
//! bookkeeping of the test cluster tooling.

pub mod outside;
pub mod domain;
pub mod wire;
pub mod ports;
pub mod system_clock;
pub mod status_service;
pub mod data_dir;
pub mod handshake;
pub mod backend;
pub mod cluster;
pub mod change_detection;
