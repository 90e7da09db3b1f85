//! Verified core of a WireGuard-tunnelled HTTP proxy: key decoding, the
//! decisions that drive a userspace WireGuard tunnel, and the settings of the
//! network devices that carry it.

pub mod keys;
pub mod tunnel;
pub mod settings;
pub mod device;
pub mod acceptor;
pub mod exit_node;
pub mod http;
