//! Protocol engine of a BattlEye RCon client.
//!
//! The crate holds everything the client decides: how the three outbound
//! packets are laid out and checksummed, how a login answer is read, what the
//! session does around a command, what the receive loop does on each tick and
//! with each datagram, and which registered handler a decoded message goes
//! to. It performs no input or output of its own: every operation hands the
//! bytes to transmit back to its caller and is told what came back.

pub mod packet;
pub mod callback;
pub mod connection_manager;
