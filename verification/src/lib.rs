//! Ticket-based peer-to-peer session core.
//!
//! Two processes with no prior knowledge of each other establish an
//! authenticated session through a short out-of-band ticket, then
//! exchange discrete length-delimited messages over multiplexed byte
//! streams. The cryptographic transport itself is the provider's work;
//! this crate owns the identity keys, the ticket text, the endpoint,
//! connection and stream lifecycle rules, and the message framing.

pub mod connection;
pub mod endpoint;
pub mod errors;
pub mod frame;
pub mod identity;
pub mod stream;
pub mod ticket;
