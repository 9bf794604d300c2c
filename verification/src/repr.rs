//! A high-level representation of an Address Resolution Protocol packet:
//! the semantic fields of the one recognized hardware/protocol combination,
//! Ethernet over IPv4.

use vstd::prelude::*;

use crate::addr::{EthernetAddress, Ipv4Address};
use crate::endian::be16;
use crate::packet::Packet;
use crate::types::{Error, HardwareType, Operation, ProtocolType};

verus! {

broadcast use vstd::array::group_array_axioms;

/// A high-level representation of an Address Resolution Protocol packet.
///
/// The enumeration is open for extension: future recognized combinations
/// may add variants, so outside matches must carry a wildcard arm.
#[derive(Clone, Copy, PartialEq, Eq, Debug)]
#[verifier::ext_equal]
#[non_exhaustive]
pub enum Repr {
    /// An Ethernet and IPv4 Address Resolution Protocol packet.
    EthernetIpv4 {
        operation: Operation,
        source_hardware_addr: EthernetAddress,
        source_protocol_addr: Ipv4Address,
        target_hardware_addr: EthernetAddress,
        target_protocol_addr: Ipv4Address,
    },
}

/// The buffer's header declares the one combination this crate understands:
/// Ethernet hardware addresses of six bytes and IPv4 protocol addresses of
/// four.
pub open spec fn combo_ok(b: Seq<u8>) -> bool
    recommends
        b.len() >= 8,
{
    &&& be16(b, 0) == 1
    &&& be16(b, 2) == 0x0800
    &&& b[4] == 6
    &&& b[5] == 4
}

impl Repr {
    /// The operation field of the representation.
    pub open spec fn spec_operation(self) -> Operation {
        match self {
            Repr::EthernetIpv4 { operation, .. } => operation,
        }
    }

    /// The source hardware address of the representation.
    pub open spec fn spec_source_hardware_addr(self) -> EthernetAddress {
        match self {
            Repr::EthernetIpv4 { source_hardware_addr, .. } => source_hardware_addr,
        }
    }

    /// The source protocol address of the representation.
    pub open spec fn spec_source_protocol_addr(self) -> Ipv4Address {
        match self {
            Repr::EthernetIpv4 { source_protocol_addr, .. } => source_protocol_addr,
        }
    }

    /// The target hardware address of the representation.
    pub open spec fn spec_target_hardware_addr(self) -> EthernetAddress {
        match self {
            Repr::EthernetIpv4 { target_hardware_addr, .. } => target_hardware_addr,
        }
    }

    /// The target protocol address of the representation.
    pub open spec fn spec_target_protocol_addr(self) -> Ipv4Address {
        match self {
            Repr::EthernetIpv4 { target_protocol_addr, .. } => target_protocol_addr,
        }
    }
}

/// The representation holds exactly the semantic fields of the packet bytes
/// `b`: the operation decoded from the operation field, and the four
/// addresses copied from their ranges.
pub open spec fn repr_matches_bytes(r: Repr, b: Seq<u8>) -> bool
    recommends
        b.len() >= 28,
{
    &&& r is EthernetIpv4
    &&& r.spec_operation() == Operation::spec_from_code(be16(b, 6))
    &&& r.spec_source_hardware_addr()@ == b.subrange(8, 14)
    &&& r.spec_source_protocol_addr()@ == b.subrange(14, 18)
    &&& r.spec_target_hardware_addr()@ == b.subrange(18, 24)
    &&& r.spec_target_protocol_addr()@ == b.subrange(24, 28)
}

/// The 28 bytes that emitting a representation produces: the fixed header
/// for the Ethernet/IPv4 combination, the operation in big-endian, and the
/// four addresses in wire order.
pub open spec fn spec_emitted(r: Repr) -> Seq<u8>
    recommends
        r is EthernetIpv4,
{
    seq![
        0u8,
        1u8,
        8u8,
        0u8,
        6u8,
        4u8,
        (r.spec_operation().spec_code() / 256) as u8,
        (r.spec_operation().spec_code() % 256) as u8,
    ] + r.spec_source_hardware_addr()@ + r.spec_source_protocol_addr()@
        + r.spec_target_hardware_addr()@ + r.spec_target_protocol_addr()@
}

impl Repr {
    /// Parse an Address Resolution Protocol packet and return a high-level
    /// representation.  Exactly the packets whose header declares the
    /// Ethernet/IPv4 combination are recognized; any other tuple of types
    /// and lengths — however structurally valid — yields
    /// `Error::Unrecognized`.  Unknown operation codes are preserved, not
    /// rejected.
    pub fn parse(packet: &Packet) -> (r: Result<Repr, Error>)
        requires
            packet.wf(),
        ensures
            r is Ok <==> combo_ok(packet@),
            r matches Ok(rep) ==> repr_matches_bytes(rep, packet@),
            r matches Err(e) ==> e == Error::Unrecognized,
    {
        let hardware_type: HardwareType = packet.hardware_type();
        let protocol_type: ProtocolType = packet.protocol_type();
        let hardware_length: u8 = packet.hardware_length();
        let protocol_length: u8 = packet.protocol_length();
        match (hardware_type, protocol_type, hardware_length, protocol_length) {
            (HardwareType::Ethernet, ProtocolType::Ipv4, 6, 4) => Ok(
                Repr::EthernetIpv4 {
                    operation: packet.operation(),
                    source_hardware_addr: EthernetAddress::from_bytes(
                        packet.source_hardware_addr(),
                    ),
                    source_protocol_addr: Ipv4Address::from_bytes(packet.source_protocol_addr()),
                    target_hardware_addr: EthernetAddress::from_bytes(
                        packet.target_hardware_addr(),
                    ),
                    target_protocol_addr: Ipv4Address::from_bytes(packet.target_protocol_addr()),
                },
            ),
            _ => Err(Error::Unrecognized),
        }
    }

    /// Emit a high-level representation into an Address Resolution Protocol
    /// packet.  The buffer behind the view must already hold the 28 bytes
    /// the Ethernet/IPv4 combination needs; bytes beyond them are left
    /// untouched.
    pub fn emit(&self, packet: &mut Packet)
        requires
            old(packet)@.len() >= 28,
            *self is EthernetIpv4,
        ensures
            final(packet)@.len() == old(packet)@.len(),
            final(packet)@.subrange(0, 28) == spec_emitted(*self),
            final(packet)@.skip(28) == old(packet)@.skip(28),
            final(packet).wf(),
    {
        match self {
            Repr::EthernetIpv4 {
                operation,
                source_hardware_addr,
                source_protocol_addr,
                target_hardware_addr,
                target_protocol_addr,
            } => {
                packet.set_hardware_type(HardwareType::Ethernet);
                packet.set_protocol_type(ProtocolType::Ipv4);
                packet.set_hardware_length(6);
                packet.set_protocol_length(4);
                packet.set_operation(*operation);
                let set_sha: Result<(), Error> = packet.set_source_hardware_addr(
                    source_hardware_addr.as_bytes(),
                );
                let set_spa: Result<(), Error> = packet.set_source_protocol_addr(
                    source_protocol_addr.as_bytes(),
                );
                let set_tha: Result<(), Error> = packet.set_target_hardware_addr(
                    target_hardware_addr.as_bytes(),
                );
                let set_tpa: Result<(), Error> = packet.set_target_protocol_addr(
                    target_protocol_addr.as_bytes(),
                );
                proof {
                    assert(set_sha is Ok && set_spa is Ok && set_tha is Ok && set_tpa is Ok);
                    assert(packet@.subrange(0, 28) =~= spec_emitted(*self));
                    assert(packet@.skip(28) =~= old(packet)@.skip(28));
                }
            },
        }
    }
}

/// The bytes that emitting produces are always a recognized packet: they
/// are exactly 28 long, and their header declares the Ethernet/IPv4
/// combination, so wrapping and parsing them cannot fail.
pub proof fn lemma_emitted_well_formed(r: Repr)
    requires
        r is EthernetIpv4,
    ensures
        spec_emitted(r).len() == 28,
        combo_ok(spec_emitted(r)),
{
    let b = spec_emitted(r);
    assert(b[0] == 0u8 && b[1] == 1u8 && b[2] == 8u8 && b[3] == 0u8 && b[4] == 6u8 && b[5]
        == 4u8);
}

/// Emitting a representation and parsing the bytes back yields the same
/// representation: whatever holds the semantic fields of `spec_emitted(r1)`
/// — as `Repr::parse` guarantees of its result — is `r1` itself.  The
/// operation must be in canonical form: an `Operation::Unknown` carrying
/// the code of a named variant decodes to that variant instead and cannot
/// survive the trip.
pub proof fn lemma_emit_then_parse(r1: Repr, r2: Repr)
    requires
        r1 is EthernetIpv4,
        r1.spec_operation().is_canonical(),
        repr_matches_bytes(r2, spec_emitted(r1)),
    ensures
        r2 == r1,
{
    let b = spec_emitted(r1);
    assert(b.subrange(8, 14) =~= r1.spec_source_hardware_addr()@);
    assert(b.subrange(14, 18) =~= r1.spec_source_protocol_addr()@);
    assert(b.subrange(18, 24) =~= r1.spec_target_hardware_addr()@);
    assert(b.subrange(24, 28) =~= r1.spec_target_protocol_addr()@);
    let code = r1.spec_operation().spec_code();
    assert(be16(b, 6) == code) by {
        assert(b[6] == (code / 256) as u8 && b[7] == (code % 256) as u8);
    }
    assert(r2.spec_source_hardware_addr().0 =~= r1.spec_source_hardware_addr().0);
    assert(r2.spec_source_protocol_addr().0 =~= r1.spec_source_protocol_addr().0);
    assert(r2.spec_target_hardware_addr().0 =~= r1.spec_target_hardware_addr().0);
    assert(r2.spec_target_protocol_addr().0 =~= r1.spec_target_protocol_addr().0);
    assert(r2 =~= r1);
}

/// Parsing a well-formed 28-byte Ethernet/IPv4 packet and emitting the
/// result reproduces the input bytes exactly: whatever holds the semantic
/// fields of `b` — as `Repr::parse` guarantees of its result — emits back
/// to `b`.  Unknown operation codes are carried through verbatim.
pub proof fn lemma_parse_then_emit(r: Repr, b: Seq<u8>)
    requires
        b.len() == 28,
        combo_ok(b),
        repr_matches_bytes(r, b),
    ensures
        spec_emitted(r) == b,
{
    assert(b[0] * 256 + b[1] == 1 && b[2] * 256 + b[3] == 0x0800) by {
        assert(be16(b, 0) == 1 && be16(b, 2) == 0x0800);
    }
    assert(b[0] == 0 && b[1] == 1 && b[2] == 8 && b[3] == 0);
    let code = r.spec_operation().spec_code();
    assert(code == be16(b, 6));
    assert((code / 256) as u8 == b[6] && (code % 256) as u8 == b[7]);
    assert(spec_emitted(r) =~= b);
}

} // verus!
