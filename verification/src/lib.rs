//! The decision-making core of MyKVM: which input events are injected, which
//! peers are dialled and trusted, and what is said when something fails.
//!
//! Everything here is a function from plain values to plain values. Sockets,
//! window handles, clocks and floating-point arithmetic live with the caller,
//! which performs the actions returned from here and reports back what came
//! of them.

pub mod number;
pub mod quic_transport;
pub mod shared_input;
pub mod table;
pub mod text;
pub mod windows_input;
