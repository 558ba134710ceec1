//! Move synchronization for a two-peer chess client: a wire codec for the
//! three protocol messages, the colour-assigning handshake, and the
//! alternating-turn state machine with its promotion sub-flow.
pub mod board;
pub mod codec;
pub mod handshake;
pub mod laws;
pub mod session;
