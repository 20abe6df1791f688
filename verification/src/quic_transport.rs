//! The transport between machines: QUIC datagrams for input, QUIC streams for
//! everything that wants an answer.

pub mod connections;
pub mod handle;
pub mod health;
pub mod identity;
pub mod ports;
pub mod streams;
