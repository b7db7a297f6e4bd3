//! Start-up orchestration for an authoritative name server, and a reader for
//! what `dig` prints about one.
//!
//! The start-up part decides which addresses and ports to listen on, how
//! sockets are prepared, in which order the transports are registered, how
//! privileges are dropped and how shutdown is signalled. Every decision is a
//! verified function over plain values; the program around this crate makes
//! the system calls those decisions ask for and reports what came back.
//!
//! The client part builds the command lines of `dig` and `delv` and takes
//! apart the text that `dig` answers with.

pub mod catalog;
pub mod client;
pub mod config;
pub mod dig;
pub mod error;
pub mod ipv4;
pub mod ipv6;
pub mod logging;
pub mod net;
pub mod number;
pub mod plan;
pub mod privilege;
pub mod record;
pub mod shutdown;
pub mod socket;
pub mod startup;
pub mod startup_laws;
pub mod text;
pub mod tls;
pub mod zones;
