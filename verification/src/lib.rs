//! Bit-exact encoding of the flags word of a DNS message header.

pub mod message;
