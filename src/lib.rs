//! A SOCKS5 CONNECT proxy whose outbound connections are pinned to one
//! network interface: address model, layered configuration, and the
//! per-connection session state machine.
pub mod address;
pub mod config;
pub mod session;
