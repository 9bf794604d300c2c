//! The small wire enumerations and the crate's error type.
//!
//! Each enumeration covers a 16-bit wire code with a closed set of named
//! variants plus a catch-all holding the raw unrecognized value, so that
//! re-encoding an unknown code always reproduces it.

use vstd::prelude::*;

verus! {

/// The hardware type field of an ARP packet.
#[derive(Clone, Copy, PartialEq, Eq, Debug)]
pub enum HardwareType {
    Ethernet,
    Unknown(u16),
}

impl HardwareType {
    /// The variant a raw 16-bit code decodes to.
    pub open spec fn spec_from_code(code: u16) -> HardwareType {
        if code == 1 {
            HardwareType::Ethernet
        } else {
            HardwareType::Unknown(code)
        }
    }

    /// The raw 16-bit code a variant encodes to.
    pub open spec fn spec_code(self) -> u16 {
        match self {
            HardwareType::Ethernet => 1,
            HardwareType::Unknown(code) => code,
        }
    }

    /// Decode a raw 16-bit code.
    pub fn from_code(code: u16) -> (r: HardwareType)
        ensures
            r == HardwareType::spec_from_code(code),
    {
        if code == 1 {
            HardwareType::Ethernet
        } else {
            HardwareType::Unknown(code)
        }
    }

    /// Encode the variant back to its raw 16-bit code.
    pub fn code(self) -> (r: u16)
        ensures
            r == self.spec_code(),
    {
        match self {
            HardwareType::Ethernet => 1,
            HardwareType::Unknown(code) => code,
        }
    }

    /// No information is lost on the wire: decoding a code and encoding the
    /// result reproduces the code, recognized or not.
    pub proof fn lemma_code_round_trip(code: u16)
        ensures
            HardwareType::spec_from_code(code).spec_code() == code,
    {
    }
}

/// The protocol type field of an ARP packet, shared with the Ethernet
/// layer's protocol enumeration.
#[derive(Clone, Copy, PartialEq, Eq, Debug)]
pub enum ProtocolType {
    Ipv4,
    Unknown(u16),
}

impl ProtocolType {
    /// The variant a raw 16-bit code decodes to.
    pub open spec fn spec_from_code(code: u16) -> ProtocolType {
        if code == 0x0800 {
            ProtocolType::Ipv4
        } else {
            ProtocolType::Unknown(code)
        }
    }

    /// The raw 16-bit code a variant encodes to.
    pub open spec fn spec_code(self) -> u16 {
        match self {
            ProtocolType::Ipv4 => 0x0800,
            ProtocolType::Unknown(code) => code,
        }
    }

    /// Decode a raw 16-bit code.
    pub fn from_code(code: u16) -> (r: ProtocolType)
        ensures
            r == ProtocolType::spec_from_code(code),
    {
        if code == 0x0800 {
            ProtocolType::Ipv4
        } else {
            ProtocolType::Unknown(code)
        }
    }

    /// Encode the variant back to its raw 16-bit code.
    pub fn code(self) -> (r: u16)
        ensures
            r == self.spec_code(),
    {
        match self {
            ProtocolType::Ipv4 => 0x0800,
            ProtocolType::Unknown(code) => code,
        }
    }

    /// No information is lost on the wire: decoding a code and encoding the
    /// result reproduces the code, recognized or not.
    pub proof fn lemma_code_round_trip(code: u16)
        ensures
            ProtocolType::spec_from_code(code).spec_code() == code,
    {
    }
}

/// The operation field of an ARP packet.
#[derive(Clone, Copy, PartialEq, Eq, Debug)]
pub enum Operation {
    Request,
    Reply,
    Unknown(u16),
}

impl Operation {
    /// The variant a raw 16-bit code decodes to.
    pub open spec fn spec_from_code(code: u16) -> Operation {
        if code == 1 {
            Operation::Request
        } else if code == 2 {
            Operation::Reply
        } else {
            Operation::Unknown(code)
        }
    }

    /// The raw 16-bit code a variant encodes to.
    pub open spec fn spec_code(self) -> u16 {
        match self {
            Operation::Request => 1,
            Operation::Reply => 2,
            Operation::Unknown(code) => code,
        }
    }

    /// A variant is canonical when decoding its own code yields it back.
    /// Every variant is canonical except `Unknown` holding the code of a
    /// named variant.
    pub open spec fn is_canonical(self) -> bool {
        Operation::spec_from_code(self.spec_code()) == self
    }

    /// Decode a raw 16-bit code.
    pub fn from_code(code: u16) -> (r: Operation)
        ensures
            r == Operation::spec_from_code(code),
    {
        if code == 1 {
            Operation::Request
        } else if code == 2 {
            Operation::Reply
        } else {
            Operation::Unknown(code)
        }
    }

    /// Encode the variant back to its raw 16-bit code.
    pub fn code(self) -> (r: u16)
        ensures
            r == self.spec_code(),
    {
        match self {
            Operation::Request => 1,
            Operation::Reply => 2,
            Operation::Unknown(code) => code,
        }
    }

    /// No information is lost on the wire: decoding a code and encoding the
    /// result reproduces the code, recognized or not.
    pub proof fn lemma_code_round_trip(code: u16)
        ensures
            Operation::spec_from_code(code).spec_code() == code,
    {
    }
}

/// What can go wrong when reading or writing a packet.
#[derive(Clone, Copy, PartialEq, Eq, Debug)]
pub enum Error {
    /// The buffer is shorter than the fixed header, or shorter than the
    /// total length its own header declares.
    Truncated,
    /// The packet is structurally valid, but its hardware/protocol
    /// type-and-length combination is not one this crate understands.
    Unrecognized,
    /// An address value whose length does not match the one the header
    /// declares was handed to a mutator; nothing was written.
    LengthMismatch,
}

} // verus!
