//! The parts of a DNS message.

pub mod header;
pub mod header_laws;
