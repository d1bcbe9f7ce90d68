//! A verified client for a single humidity sensor reached through a narrow,
//! syscall-style transport: a numbered command call, a single-slot
//! subscribe/upcall channel, and a cooperative yield primitive.
//!
//! The crate models the transport deterministically (`kernel`), implements the
//! simulated driver that scripts measurements for tests (`sim`), and verifies
//! the client operations (`client`), including the loop that turns the
//! event-driven upcall interface into a synchronous measurement. The laws the
//! protocol obeys are stated and proved in `laws`.

pub mod client;
pub mod errors;
pub mod kernel;
pub mod laws;
pub mod listener;
pub mod reading;
pub mod sim;
