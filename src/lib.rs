//! Ingestion core for an encrypted racing-simulator telemetry stream:
//! datagram decryption, fixed-layout decoding, the receive/heartbeat
//! session state machine and a bounded fan-out hub.

pub mod bytes;
pub mod cipher;
pub mod telemetry;
pub mod hub;
pub mod session;
