//! The fixed-size address types of the recognized combination: six-byte
//! Ethernet hardware addresses and four-byte IPv4 protocol addresses.

use vstd::prelude::*;
use vstd::slice::slice_index_get;

verus! {

broadcast use vstd::array::group_array_axioms;

/// A six-byte Ethernet (MAC) hardware address.
#[derive(Clone, Copy, PartialEq, Eq, Debug)]
#[verifier::ext_equal]
pub struct EthernetAddress(pub [u8; 6]);

impl View for EthernetAddress {
    type V = Seq<u8>;

    open spec fn view(&self) -> Seq<u8> {
        self.0@
    }
}

impl EthernetAddress {
    /// Copy an address out of `data`, which must hold exactly six bytes.
    pub fn from_bytes(data: &[u8]) -> (r: EthernetAddress)
        requires
            data@.len() == 6,
        ensures
            r@ == data@,
    {
        let r = EthernetAddress(
            [
                *slice_index_get(data, 0),
                *slice_index_get(data, 1),
                *slice_index_get(data, 2),
                *slice_index_get(data, 3),
                *slice_index_get(data, 4),
                *slice_index_get(data, 5),
            ],
        );
        proof {
            assert(r@ =~= data@);
        }
        r
    }

    /// View the address as a byte slice.
    pub fn as_bytes(&self) -> (r: &[u8])
        ensures
            r@ == self@,
    {
        vstd::array::array_as_slice(&self.0)
    }
}

/// A four-byte IPv4 protocol address.
#[derive(Clone, Copy, PartialEq, Eq, Debug)]
#[verifier::ext_equal]
pub struct Ipv4Address(pub [u8; 4]);

impl View for Ipv4Address {
    type V = Seq<u8>;

    open spec fn view(&self) -> Seq<u8> {
        self.0@
    }
}

impl Ipv4Address {
    /// Copy an address out of `data`, which must hold exactly four bytes.
    pub fn from_bytes(data: &[u8]) -> (r: Ipv4Address)
        requires
            data@.len() == 4,
        ensures
            r@ == data@,
    {
        let r = Ipv4Address(
            [
                *slice_index_get(data, 0),
                *slice_index_get(data, 1),
                *slice_index_get(data, 2),
                *slice_index_get(data, 3),
            ],
        );
        proof {
            assert(r@ =~= data@);
        }
        r
    }

    /// View the address as a byte slice.
    pub fn as_bytes(&self) -> (r: &[u8])
        ensures
            r@ == self@,
    {
        vstd::array::array_as_slice(&self.0)
    }
}

} // verus!
