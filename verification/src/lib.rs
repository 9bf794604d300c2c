//! Address Resolution Protocol (ARP) packets.
//!
//! The crate offers a zero-copy view over a raw byte buffer
//! ([`packet::Packet`]) whose accessors and mutators read and write the wire
//! fields in place, and a typed representation ([`repr::Repr`]) for the
//! recognized Ethernet/IPv4 combination.  The wire layout is self-describing:
//! the hardware-address and protocol-address length fields of the fixed
//! header determine the offsets of the four variable-length address fields
//! that follow ([`field`]).

pub mod addr;
pub mod endian;
pub mod field;
pub mod packet;
pub mod render;
pub mod repr;
pub mod types;
