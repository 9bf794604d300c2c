//! Diagnostic text for packets and representations.
//!
//! `core::fmt` has no place in verified code, so the types render themselves
//! into `String`s instead: a recognized packet as a one-line summary, an
//! unrecognized one as a dump of every raw header field, so that malformed
//! packets stay diagnosable.

use vstd::prelude::*;
use vstd::slice::{slice_index_get, slice_subrange};
use vstd::string::StringExecFns;

use crate::addr::{EthernetAddress, Ipv4Address};
use crate::endian::be16;
use crate::field::{sha_range, spa_range, tha_range, tpa_range};
use crate::packet::Packet;
use crate::repr::{combo_ok, Repr};
use crate::types::{HardwareType, Operation, ProtocolType};

verus! {

/// The text of a single hexadecimal digit.
pub open spec fn spec_digit_text(d: nat) -> Seq<char>
    recommends
        d < 16,
{
    if d == 0 {
        "0"@
    } else if d == 1 {
        "1"@
    } else if d == 2 {
        "2"@
    } else if d == 3 {
        "3"@
    } else if d == 4 {
        "4"@
    } else if d == 5 {
        "5"@
    } else if d == 6 {
        "6"@
    } else if d == 7 {
        "7"@
    } else if d == 8 {
        "8"@
    } else if d == 9 {
        "9"@
    } else if d == 10 {
        "a"@
    } else if d == 11 {
        "b"@
    } else if d == 12 {
        "c"@
    } else if d == 13 {
        "d"@
    } else if d == 14 {
        "e"@
    } else {
        "f"@
    }
}

/// The decimal text of a number, most significant digit first, with no
/// leading zero except for the number zero itself.
pub open spec fn spec_dec_text(n: nat) -> Seq<char>
    decreases n,
{
    if n < 10 {
        spec_digit_text(n)
    } else {
        spec_dec_text(n / 10) + spec_digit_text(n % 10)
    }
}

/// The text of one byte as two hexadecimal digits.
pub open spec fn spec_hex2_text(b: u8) -> Seq<char> {
    spec_digit_text((b / 16) as nat) + spec_digit_text((b % 16) as nat)
}

/// The text of a byte string: two hexadecimal digits per byte, bytes
/// separated by colons.
pub open spec fn spec_bytes_hex_text(s: Seq<u8>) -> Seq<char>
    decreases s.len(),
{
    if s.len() == 0 {
        Seq::<char>::empty()
    } else if s.len() == 1 {
        spec_hex2_text(s[0])
    } else {
        spec_hex2_text(s[0]) + ":"@ + spec_bytes_hex_text(s.skip(1))
    }
}

/// The text of a byte string as decimal numbers separated by dots, the way
/// IPv4 addresses are written.
pub open spec fn spec_bytes_dec_text(s: Seq<u8>) -> Seq<char>
    decreases s.len(),
{
    if s.len() == 0 {
        Seq::<char>::empty()
    } else if s.len() == 1 {
        spec_dec_text(s[0] as nat)
    } else {
        spec_dec_text(s[0] as nat) + "."@ + spec_bytes_dec_text(s.skip(1))
    }
}

/// The text of a hardware type variant.
pub open spec fn spec_hardware_type_text(t: HardwareType) -> Seq<char> {
    match t {
        HardwareType::Ethernet => "Ethernet"@,
        HardwareType::Unknown(code) => "Unknown("@ + spec_dec_text(code as nat) + ")"@,
    }
}

/// The text of a protocol type variant.
pub open spec fn spec_protocol_type_text(t: ProtocolType) -> Seq<char> {
    match t {
        ProtocolType::Ipv4 => "Ipv4"@,
        ProtocolType::Unknown(code) => "Unknown("@ + spec_dec_text(code as nat) + ")"@,
    }
}

/// The text of an operation variant.
pub open spec fn spec_operation_text(op: Operation) -> Seq<char> {
    match op {
        Operation::Request => "Request"@,
        Operation::Reply => "Reply"@,
        Operation::Unknown(code) => "Unknown("@ + spec_dec_text(code as nat) + ")"@,
    }
}

/// The one-line summary of a recognized Ethernet/IPv4 packet with the given
/// semantic fields.
pub open spec fn spec_summary_text(
    op: Operation,
    sha: Seq<u8>,
    spa: Seq<u8>,
    tha: Seq<u8>,
    tpa: Seq<u8>,
) -> Seq<char> {
    "ARP type=Ethernet+IPv4 src="@ + spec_bytes_hex_text(sha) + "/"@ + spec_bytes_dec_text(spa)
        + " dst="@ + spec_bytes_hex_text(tha) + "/"@ + spec_bytes_dec_text(tpa) + " op="@
        + spec_operation_text(op)
}

/// The raw dump of an unrecognized packet: every header field by name, the
/// address fields as hexadecimal byte strings.
pub open spec fn spec_raw_text(b: Seq<u8>) -> Seq<char>
    recommends
        b.len() >= 8,
{
    "ARP htype="@ + spec_hardware_type_text(HardwareType::spec_from_code(be16(b, 0)))
        + " ptype="@ + spec_protocol_type_text(ProtocolType::spec_from_code(be16(b, 2)))
        + " hlen="@ + spec_dec_text(b[4] as nat) + " plen="@ + spec_dec_text(b[5] as nat)
        + " op="@ + spec_operation_text(Operation::spec_from_code(be16(b, 6))) + " sha="@
        + spec_bytes_hex_text(b.subrange(sha_range(b[4], b[5]).0, sha_range(b[4], b[5]).1))
        + " spa="@ + spec_bytes_hex_text(
        b.subrange(spa_range(b[4], b[5]).0, spa_range(b[4], b[5]).1),
    ) + " tha="@ + spec_bytes_hex_text(
        b.subrange(tha_range(b[4], b[5]).0, tha_range(b[4], b[5]).1),
    ) + " tpa="@ + spec_bytes_hex_text(
        b.subrange(tpa_range(b[4], b[5]).0, tpa_range(b[4], b[5]).1),
    )
}

/// The text of a single hexadecimal digit.
pub fn digit_text(d: u8) -> (r: &'static str)
    requires
        d < 16,
    ensures
        r@ == spec_digit_text(d as nat),
{
    match d {
        0 => "0",
        1 => "1",
        2 => "2",
        3 => "3",
        4 => "4",
        5 => "5",
        6 => "6",
        7 => "7",
        8 => "8",
        9 => "9",
        10 => "a",
        11 => "b",
        12 => "c",
        13 => "d",
        14 => "e",
        _ => "f",
    }
}

/// The decimal text of a number.
pub fn dec_text(n: u16) -> (r: String)
    ensures
        r@ == spec_dec_text(n as nat),
    decreases n,
{
    if n < 10 {
        String::from_str(digit_text(n as u8))
    } else {
        let mut s: String = dec_text(n / 10);
        s.append(digit_text((n % 10) as u8));
        s
    }
}

/// The text of one byte as two hexadecimal digits.
pub fn hex2_text(b: u8) -> (r: String)
    ensures
        r@ == spec_hex2_text(b),
{
    let mut s: String = String::from_str(digit_text(b / 16));
    s.append(digit_text(b % 16));
    s
}

/// The text of a byte string: hexadecimal digit pairs separated by colons.
pub fn bytes_hex_text(v: &[u8]) -> (r: String)
    ensures
        r@ == spec_bytes_hex_text(v@),
    decreases v@.len(),
{
    let n: usize = v.len();
    if n == 0 {
        String::new()
    } else {
        let mut s: String = hex2_text(*slice_index_get(v, 0));
        if n > 1 {
            s.append(":");
            let rest: String = bytes_hex_text(slice_subrange(v, 1, n));
            s.append(rest.as_str());
            proof {
                assert(v@.skip(1) =~= v@.subrange(1, n as int));
            }
        }
        proof {
            assert(s@ =~= spec_bytes_hex_text(v@));
        }
        s
    }
}

/// The text of a byte string as dot-separated decimal numbers.
pub fn bytes_dec_text(v: &[u8]) -> (r: String)
    ensures
        r@ == spec_bytes_dec_text(v@),
    decreases v@.len(),
{
    let n: usize = v.len();
    if n == 0 {
        String::new()
    } else {
        let mut s: String = dec_text(*slice_index_get(v, 0) as u16);
        if n > 1 {
            s.append(".");
            let rest: String = bytes_dec_text(slice_subrange(v, 1, n));
            s.append(rest.as_str());
            proof {
                assert(v@.skip(1) =~= v@.subrange(1, n as int));
            }
        }
        proof {
            assert(s@ =~= spec_bytes_dec_text(v@));
        }
        s
    }
}

impl EthernetAddress {
    /// The conventional text of the address: hexadecimal digit pairs
    /// separated by colons.
    pub fn display_string(&self) -> (r: String)
        ensures
            r@ == spec_bytes_hex_text(self@),
    {
        bytes_hex_text(self.as_bytes())
    }
}

impl Ipv4Address {
    /// The conventional text of the address: dot-separated decimal octets.
    pub fn display_string(&self) -> (r: String)
        ensures
            r@ == spec_bytes_dec_text(self@),
    {
        bytes_dec_text(self.as_bytes())
    }
}

impl HardwareType {
    /// The name of the variant, with the raw code of an unrecognized one.
    pub fn display_string(&self) -> (r: String)
        ensures
            r@ == spec_hardware_type_text(*self),
    {
        match self {
            HardwareType::Ethernet => String::from_str("Ethernet"),
            HardwareType::Unknown(code) => {
                let mut s: String = String::from_str("Unknown(");
                let num: String = dec_text(*code);
                s.append(num.as_str());
                s.append(")");
                proof {
                    assert(s@ =~= spec_hardware_type_text(*self));
                }
                s
            },
        }
    }
}

impl ProtocolType {
    /// The name of the variant, with the raw code of an unrecognized one.
    pub fn display_string(&self) -> (r: String)
        ensures
            r@ == spec_protocol_type_text(*self),
    {
        match self {
            ProtocolType::Ipv4 => String::from_str("Ipv4"),
            ProtocolType::Unknown(code) => {
                let mut s: String = String::from_str("Unknown(");
                let num: String = dec_text(*code);
                s.append(num.as_str());
                s.append(")");
                proof {
                    assert(s@ =~= spec_protocol_type_text(*self));
                }
                s
            },
        }
    }
}

impl Operation {
    /// The name of the variant, with the raw code of an unrecognized one.
    pub fn display_string(&self) -> (r: String)
        ensures
            r@ == spec_operation_text(*self),
    {
        match self {
            Operation::Request => String::from_str("Request"),
            Operation::Reply => String::from_str("Reply"),
            Operation::Unknown(code) => {
                let mut s: String = String::from_str("Unknown(");
                let num: String = dec_text(*code);
                s.append(num.as_str());
                s.append(")");
                proof {
                    assert(s@ =~= spec_operation_text(*self));
                }
                s
            },
        }
    }
}

impl Repr {
    /// A one-line human-readable summary of the representation.
    pub fn display_string(&self) -> (r: String)
        requires
            *self is EthernetIpv4,
        ensures
            r@ == spec_summary_text(
                self.spec_operation(),
                self.spec_source_hardware_addr()@,
                self.spec_source_protocol_addr()@,
                self.spec_target_hardware_addr()@,
                self.spec_target_protocol_addr()@,
            ),
    {
        match self {
            Repr::EthernetIpv4 {
                operation,
                source_hardware_addr,
                source_protocol_addr,
                target_hardware_addr,
                target_protocol_addr,
            } => {
                let mut s: String = String::from_str("ARP type=Ethernet+IPv4 src=");
                let sha: String = source_hardware_addr.display_string();
                s.append(sha.as_str());
                s.append("/");
                let spa: String = source_protocol_addr.display_string();
                s.append(spa.as_str());
                s.append(" dst=");
                let tha: String = target_hardware_addr.display_string();
                s.append(tha.as_str());
                s.append("/");
                let tpa: String = target_protocol_addr.display_string();
                s.append(tpa.as_str());
                s.append(" op=");
                let op: String = operation.display_string();
                s.append(op.as_str());
                proof {
                    assert(s@ =~= spec_summary_text(
                        self.spec_operation(),
                        self.spec_source_hardware_addr()@,
                        self.spec_source_protocol_addr()@,
                        self.spec_target_hardware_addr()@,
                        self.spec_target_protocol_addr()@,
                    ));
                }
                s
            },
        }
    }
}

impl Packet {
    /// A human-readable account of the packet: the summary of its
    /// representation when the packet is recognized, a dump of every raw
    /// header field when it is not.
    pub fn display_string(&self) -> (r: String)
        requires
            self.wf(),
        ensures
            combo_ok(self@) ==> r@ == spec_summary_text(
                Operation::spec_from_code(be16(self@, 6)),
                self@.subrange(8, 14),
                self@.subrange(14, 18),
                self@.subrange(18, 24),
                self@.subrange(24, 28),
            ),
            !combo_ok(self@) ==> r@ == spec_raw_text(self@),
    {
        match Repr::parse(self) {
            Ok(repr) => repr.display_string(),
            Err(_) => {
                let mut s: String = String::from_str("ARP htype=");
                let htype: String = self.hardware_type().display_string();
                s.append(htype.as_str());
                s.append(" ptype=");
                let ptype: String = self.protocol_type().display_string();
                s.append(ptype.as_str());
                s.append(" hlen=");
                let hlen: String = dec_text(self.hardware_length() as u16);
                s.append(hlen.as_str());
                s.append(" plen=");
                let plen: String = dec_text(self.protocol_length() as u16);
                s.append(plen.as_str());
                s.append(" op=");
                let op: String = self.operation().display_string();
                s.append(op.as_str());
                s.append(" sha=");
                let sha: String = bytes_hex_text(self.source_hardware_addr());
                s.append(sha.as_str());
                s.append(" spa=");
                let spa: String = bytes_hex_text(self.source_protocol_addr());
                s.append(spa.as_str());
                s.append(" tha=");
                let tha: String = bytes_hex_text(self.target_hardware_addr());
                s.append(tha.as_str());
                s.append(" tpa=");
                let tpa: String = bytes_hex_text(self.target_protocol_addr());
                s.append(tpa.as_str());
                proof {
                    assert(s@ =~= spec_raw_text(self@));
                }
                s
            },
        }
    }
}

} // verus!
