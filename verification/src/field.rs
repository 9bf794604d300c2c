//! Field layout: pure arithmetic mapping the two address-length fields of
//! the fixed header to the byte ranges of the four variable-length fields.
//!
//! Fixed fields sit at offsets known in advance: hardware type at 0..2,
//! protocol type at 2..4, hardware length at 4, protocol length at 5 and
//! operation at 6..8.  The variable fields follow, each beginning where the
//! previous one ends.  No bounds checking happens here; the caller holds the
//! computed ranges against the buffer it has.

use vstd::prelude::*;

verus! {

/// A byte range within a packet buffer: the half-open interval
/// `start..end`.
#[derive(Clone, Copy, PartialEq, Eq, Structural, Debug)]
pub struct Field {
    pub start: usize,
    pub end: usize,
}

/// The range of the source hardware address, as a `(start, end)` pair.
pub open spec fn sha_range(hardware_length: u8, protocol_length: u8) -> (int, int) {
    (8 as int, 8 + hardware_length as int)
}

/// The range of the source protocol address, as a `(start, end)` pair.
pub open spec fn spa_range(hardware_length: u8, protocol_length: u8) -> (int, int) {
    (
        sha_range(hardware_length, protocol_length).1,
        sha_range(hardware_length, protocol_length).1 + protocol_length as int,
    )
}

/// The range of the target hardware address, as a `(start, end)` pair.
pub open spec fn tha_range(hardware_length: u8, protocol_length: u8) -> (int, int) {
    (
        spa_range(hardware_length, protocol_length).1,
        spa_range(hardware_length, protocol_length).1 + hardware_length as int,
    )
}

/// The range of the target protocol address, as a `(start, end)` pair.
pub open spec fn tpa_range(hardware_length: u8, protocol_length: u8) -> (int, int) {
    (
        tha_range(hardware_length, protocol_length).1,
        tha_range(hardware_length, protocol_length).1 + protocol_length as int,
    )
}

/// The total length of a packet whose header declares the given address
/// lengths: the fixed header plus two hardware and two protocol addresses.
pub open spec fn spec_total_len(hardware_length: u8, protocol_length: u8) -> int {
    tpa_range(hardware_length, protocol_length).1
}

/// Compute the range of the source hardware address field.
#[allow(non_snake_case)]
pub fn SHA(hardware_length: u8, protocol_length: u8) -> (r: Field)
    ensures
        r.start == sha_range(hardware_length, protocol_length).0,
        r.end == sha_range(hardware_length, protocol_length).1,
{
    Field { start: 8, end: 8 + hardware_length as usize }
}

/// Compute the range of the source protocol address field.
#[allow(non_snake_case)]
pub fn SPA(hardware_length: u8, protocol_length: u8) -> (r: Field)
    ensures
        r.start == spa_range(hardware_length, protocol_length).0,
        r.end == spa_range(hardware_length, protocol_length).1,
{
    let start: usize = 8 + hardware_length as usize;
    Field { start, end: start + protocol_length as usize }
}

/// Compute the range of the target hardware address field.
#[allow(non_snake_case)]
pub fn THA(hardware_length: u8, protocol_length: u8) -> (r: Field)
    ensures
        r.start == tha_range(hardware_length, protocol_length).0,
        r.end == tha_range(hardware_length, protocol_length).1,
{
    let start: usize = 8 + hardware_length as usize + protocol_length as usize;
    Field { start, end: start + hardware_length as usize }
}

/// Compute the range of the target protocol address field.
#[allow(non_snake_case)]
pub fn TPA(hardware_length: u8, protocol_length: u8) -> (r: Field)
    ensures
        r.start == tpa_range(hardware_length, protocol_length).0,
        r.end == tpa_range(hardware_length, protocol_length).1,
{
    let start: usize = 8 + 2 * (hardware_length as usize) + protocol_length as usize;
    Field { start, end: start + protocol_length as usize }
}

/// The four variable-length field ranges tile the space after the fixed
/// header, whatever the declared address lengths: the first begins at the
/// end of the fixed header, each later one begins exactly where the previous
/// one ends, none runs backwards, and the last ends at the declared total
/// length.  When both lengths are positive, the four starting offsets are
/// strictly increasing; the ranges therefore never overlap.
pub proof fn lemma_field_layout(hardware_length: u8, protocol_length: u8)
    ensures
        sha_range(hardware_length, protocol_length).0 == 8,
        spa_range(hardware_length, protocol_length).0 == sha_range(
            hardware_length,
            protocol_length,
        ).1,
        tha_range(hardware_length, protocol_length).0 == spa_range(
            hardware_length,
            protocol_length,
        ).1,
        tpa_range(hardware_length, protocol_length).0 == tha_range(
            hardware_length,
            protocol_length,
        ).1,
        tpa_range(hardware_length, protocol_length).1 == spec_total_len(
            hardware_length,
            protocol_length,
        ),
        sha_range(hardware_length, protocol_length).0 <= sha_range(
            hardware_length,
            protocol_length,
        ).1,
        spa_range(hardware_length, protocol_length).0 <= spa_range(
            hardware_length,
            protocol_length,
        ).1,
        tha_range(hardware_length, protocol_length).0 <= tha_range(
            hardware_length,
            protocol_length,
        ).1,
        tpa_range(hardware_length, protocol_length).0 <= tpa_range(
            hardware_length,
            protocol_length,
        ).1,
        hardware_length > 0 && protocol_length > 0 ==> sha_range(
            hardware_length,
            protocol_length,
        ).0 < spa_range(hardware_length, protocol_length).0 < tha_range(
            hardware_length,
            protocol_length,
        ).0 < tpa_range(hardware_length, protocol_length).0,
{
}

} // verus!
