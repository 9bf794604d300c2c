//! A read/write view over an Address Resolution Protocol packet held in a
//! raw byte buffer.
//!
//! The view owns the buffer for as long as it exists and releases it through
//! [`Packet::into_inner`].  Every accessor and mutator re-derives the field
//! offsets from the header's own length bytes on each call; nothing is
//! cached, so mutating a length field immediately moves the address fields
//! it governs.

use vstd::prelude::*;
use vstd::slice::slice_subrange;

use crate::endian::{be16, get_u16_be, set_u16_be};
use crate::field;
use crate::field::{sha_range, spa_range, spec_total_len, tha_range, tpa_range};
use crate::types::{Error, HardwareType, Operation, ProtocolType};

verus! {

/// The bytes of `v` with the `v2.len()` bytes at `off` replaced by `v2`.
pub open spec fn spliced(v: Seq<u8>, off: int, v2: Seq<u8>) -> Seq<u8>
    recommends
        0 <= off,
        off + v2.len() <= v.len(),
{
    v.subrange(0, off) + v2 + v.subrange(off + v2.len() as int, v.len() as int)
}

/// Replace the `v.len()` bytes of `b` at `off` with the bytes of `v`.
fn copy_into(b: &mut Vec<u8>, off: usize, v: &[u8])
    requires
        off + v@.len() <= old(b)@.len(),
    ensures
        final(b)@ == spliced(old(b)@, off as int, v@),
        final(b)@.len() == old(b)@.len(),
{
    let n: usize = v.len();
    let total: usize = b.len();
    let mut k: usize = 0;
    while k < n
        invariant
            k <= n,
            n == v@.len(),
            off + n <= total,
            b@.len() == total,
            b@.len() == old(b)@.len(),
            forall|i: int| 0 <= i < b@.len() && !(off <= i < off + k) ==> b@[i] == old(b)@[i],
            forall|i: int| 0 <= i < k ==> b@[off + i] == v@[i],
        decreases n - k,
    {
        b[off + k] = *vstd::slice::slice_index_get(v, k);
        k = k + 1;
    }
    proof {
        assert(b@ =~= spliced(old(b)@, off as int, v@));
    }
}

/// A read/write wrapper around an Address Resolution Protocol packet.
#[derive(Debug)]
pub struct Packet {
    buffer: Vec<u8>,
}

impl View for Packet {
    type V = Seq<u8>;

    closed spec fn view(&self) -> Seq<u8> {
        self.buffer@
    }
}

impl Packet {
    /// The buffer holds at least the fixed eight-byte header, so the fixed
    /// fields can be read and written.
    pub open spec fn header_ok(self) -> bool {
        self@.len() >= 8
    }

    /// The hardware-address length the header declares.
    pub open spec fn spec_hardware_length(self) -> u8
        recommends
            self.header_ok(),
    {
        self@[4]
    }

    /// The protocol-address length the header declares.
    pub open spec fn spec_protocol_length(self) -> u8
        recommends
            self.header_ok(),
    {
        self@[5]
    }

    /// The buffer holds the fixed header and the four variable-length
    /// address fields whose sizes the header itself declares.
    pub open spec fn wf(self) -> bool {
        self.header_ok() && self@.len() >= spec_total_len(
            self.spec_hardware_length(),
            self.spec_protocol_length(),
        )
    }

    /// Wrap a buffer with an ARP packet.  Fails on a buffer shorter than
    /// the fixed header, and on one shorter than the total length its own
    /// header declares; no view is produced then.
    pub fn new(storage: Vec<u8>) -> (r: Result<Packet, Error>)
        ensures
            r is Ok <==> storage@.len() >= 8 && storage@.len() >= spec_total_len(
                storage@[4],
                storage@[5],
            ),
            r matches Ok(packet) ==> packet@ == storage@ && packet.wf(),
            r matches Err(e) ==> e == Error::Truncated,
    {
        let len: usize = storage.len();
        if len < 8 {
            return Err(Error::Truncated);
        }
        let packet = Packet { buffer: storage };
        let f: field::Field = field::TPA(packet.hardware_length(), packet.protocol_length());
        if len < f.end {
            Err(Error::Truncated)
        } else {
            Ok(packet)
        }
    }

    /// Consume the view, releasing the underlying buffer.
    pub fn into_inner(self) -> (r: Vec<u8>)
        ensures
            r@ == self@,
    {
        self.buffer
    }

    /// Read the hardware type field.
    pub fn hardware_type(&self) -> (r: HardwareType)
        requires
            self.header_ok(),
        ensures
            r == HardwareType::spec_from_code(be16(self@, 0)),
    {
        HardwareType::from_code(get_u16_be(self.buffer.as_slice(), 0))
    }

    /// Read the protocol type field.
    pub fn protocol_type(&self) -> (r: ProtocolType)
        requires
            self.header_ok(),
        ensures
            r == ProtocolType::spec_from_code(be16(self@, 2)),
    {
        ProtocolType::from_code(get_u16_be(self.buffer.as_slice(), 2))
    }

    /// Read the hardware length field.
    pub fn hardware_length(&self) -> (r: u8)
        requires
            self.header_ok(),
        ensures
            r == self.spec_hardware_length(),
    {
        self.buffer[4]
    }

    /// Read the protocol length field.
    pub fn protocol_length(&self) -> (r: u8)
        requires
            self.header_ok(),
        ensures
            r == self.spec_protocol_length(),
    {
        self.buffer[5]
    }

    /// Read the operation field.
    pub fn operation(&self) -> (r: Operation)
        requires
            self.header_ok(),
        ensures
            r == Operation::spec_from_code(be16(self@, 6)),
    {
        Operation::from_code(get_u16_be(self.buffer.as_slice(), 6))
    }

    /// Read the source hardware address field.
    pub fn source_hardware_addr(&self) -> (r: &[u8])
        requires
            self.wf(),
        ensures
            r@ == self@.subrange(
                sha_range(self.spec_hardware_length(), self.spec_protocol_length()).0,
                sha_range(self.spec_hardware_length(), self.spec_protocol_length()).1,
            ),
    {
        let f: field::Field = field::SHA(self.hardware_length(), self.protocol_length());
        slice_subrange(self.buffer.as_slice(), f.start, f.end)
    }

    /// Read the source protocol address field.
    pub fn source_protocol_addr(&self) -> (r: &[u8])
        requires
            self.wf(),
        ensures
            r@ == self@.subrange(
                spa_range(self.spec_hardware_length(), self.spec_protocol_length()).0,
                spa_range(self.spec_hardware_length(), self.spec_protocol_length()).1,
            ),
    {
        let f: field::Field = field::SPA(self.hardware_length(), self.protocol_length());
        slice_subrange(self.buffer.as_slice(), f.start, f.end)
    }

    /// Read the target hardware address field.
    pub fn target_hardware_addr(&self) -> (r: &[u8])
        requires
            self.wf(),
        ensures
            r@ == self@.subrange(
                tha_range(self.spec_hardware_length(), self.spec_protocol_length()).0,
                tha_range(self.spec_hardware_length(), self.spec_protocol_length()).1,
            ),
    {
        let f: field::Field = field::THA(self.hardware_length(), self.protocol_length());
        slice_subrange(self.buffer.as_slice(), f.start, f.end)
    }

    /// Read the target protocol address field.
    pub fn target_protocol_addr(&self) -> (r: &[u8])
        requires
            self.wf(),
        ensures
            r@ == self@.subrange(
                tpa_range(self.spec_hardware_length(), self.spec_protocol_length()).0,
                tpa_range(self.spec_hardware_length(), self.spec_protocol_length()).1,
            ),
    {
        let f: field::Field = field::TPA(self.hardware_length(), self.protocol_length());
        slice_subrange(self.buffer.as_slice(), f.start, f.end)
    }

    /// Write the hardware type field.
    pub fn set_hardware_type(&mut self, value: HardwareType)
        requires
            old(self).header_ok(),
        ensures
            final(self)@ == old(self)@.update(0, (value.spec_code() / 256) as u8).update(
                1,
                (value.spec_code() % 256) as u8,
            ),
            final(self)@.len() == old(self)@.len(),
            be16(final(self)@, 0) == value.spec_code(),
            forall|i: int| 2 <= i < old(self)@.len() ==> final(self)@[i] == old(self)@[i],
    {
        set_u16_be(&mut self.buffer, 0, value.code());
    }

    /// Write the protocol type field.
    pub fn set_protocol_type(&mut self, value: ProtocolType)
        requires
            old(self).header_ok(),
        ensures
            final(self)@ == old(self)@.update(2, (value.spec_code() / 256) as u8).update(
                3,
                (value.spec_code() % 256) as u8,
            ),
            final(self)@.len() == old(self)@.len(),
            be16(final(self)@, 2) == value.spec_code(),
            forall|i: int|
                0 <= i < old(self)@.len() && !(2 <= i < 4) ==> final(self)@[i] == old(self)@[i],
    {
        set_u16_be(&mut self.buffer, 2, value.code());
    }

    /// Write the hardware length field.  This moves the address fields the
    /// header governs; the caller is responsible for the buffer still being
    /// long enough for the new layout.
    pub fn set_hardware_length(&mut self, value: u8)
        requires
            old(self).header_ok(),
        ensures
            final(self)@ == old(self)@.update(4, value),
            final(self)@.len() == old(self)@.len(),
    {
        self.buffer[4] = value;
    }

    /// Write the protocol length field.  This moves the address fields the
    /// header governs; the caller is responsible for the buffer still being
    /// long enough for the new layout.
    pub fn set_protocol_length(&mut self, value: u8)
        requires
            old(self).header_ok(),
        ensures
            final(self)@ == old(self)@.update(5, value),
            final(self)@.len() == old(self)@.len(),
    {
        self.buffer[5] = value;
    }

    /// Write the operation field.
    pub fn set_operation(&mut self, value: Operation)
        requires
            old(self).header_ok(),
        ensures
            final(self)@ == old(self)@.update(6, (value.spec_code() / 256) as u8).update(
                7,
                (value.spec_code() % 256) as u8,
            ),
            final(self)@.len() == old(self)@.len(),
            be16(final(self)@, 6) == value.spec_code(),
            forall|i: int|
                0 <= i < old(self)@.len() && !(6 <= i < 8) ==> final(self)@[i] == old(self)@[i],
    {
        set_u16_be(&mut self.buffer, 6, value.code());
    }

    /// Write the source hardware address field.  The supplied value must be
    /// exactly as long as the hardware length the header declares; on a
    /// mismatch nothing is written and `Error::LengthMismatch` comes back.
    pub fn set_source_hardware_addr(&mut self, value: &[u8]) -> (r: Result<(), Error>)
        requires
            old(self).wf(),
        ensures
            r is Ok <==> value@.len() == old(self).spec_hardware_length() as int,
            r is Ok ==> final(self)@ == spliced(
                old(self)@,
                sha_range(
                    old(self).spec_hardware_length(),
                    old(self).spec_protocol_length(),
                ).0,
                value@,
            ) && final(self).wf(),
            r is Err ==> final(self)@ == old(self)@ && r == Err::<(), Error>(
                Error::LengthMismatch,
            ),
    {
        let hardware_length: u8 = self.hardware_length();
        let protocol_length: u8 = self.protocol_length();
        if value.len() != hardware_length as usize {
            return Err(Error::LengthMismatch);
        }
        let f: field::Field = field::SHA(hardware_length, protocol_length);
        copy_into(&mut self.buffer, f.start, value);
        Ok(())
    }

    /// Write the source protocol address field.  The supplied value must be
    /// exactly as long as the protocol length the header declares; on a
    /// mismatch nothing is written and `Error::LengthMismatch` comes back.
    pub fn set_source_protocol_addr(&mut self, value: &[u8]) -> (r: Result<(), Error>)
        requires
            old(self).wf(),
        ensures
            r is Ok <==> value@.len() == old(self).spec_protocol_length() as int,
            r is Ok ==> final(self)@ == spliced(
                old(self)@,
                spa_range(
                    old(self).spec_hardware_length(),
                    old(self).spec_protocol_length(),
                ).0,
                value@,
            ) && final(self).wf(),
            r is Err ==> final(self)@ == old(self)@ && r == Err::<(), Error>(
                Error::LengthMismatch,
            ),
    {
        let hardware_length: u8 = self.hardware_length();
        let protocol_length: u8 = self.protocol_length();
        if value.len() != protocol_length as usize {
            return Err(Error::LengthMismatch);
        }
        let f: field::Field = field::SPA(hardware_length, protocol_length);
        copy_into(&mut self.buffer, f.start, value);
        Ok(())
    }

    /// Write the target hardware address field.  The supplied value must be
    /// exactly as long as the hardware length the header declares; on a
    /// mismatch nothing is written and `Error::LengthMismatch` comes back.
    pub fn set_target_hardware_addr(&mut self, value: &[u8]) -> (r: Result<(), Error>)
        requires
            old(self).wf(),
        ensures
            r is Ok <==> value@.len() == old(self).spec_hardware_length() as int,
            r is Ok ==> final(self)@ == spliced(
                old(self)@,
                tha_range(
                    old(self).spec_hardware_length(),
                    old(self).spec_protocol_length(),
                ).0,
                value@,
            ) && final(self).wf(),
            r is Err ==> final(self)@ == old(self)@ && r == Err::<(), Error>(
                Error::LengthMismatch,
            ),
    {
        let hardware_length: u8 = self.hardware_length();
        let protocol_length: u8 = self.protocol_length();
        if value.len() != hardware_length as usize {
            return Err(Error::LengthMismatch);
        }
        let f: field::Field = field::THA(hardware_length, protocol_length);
        copy_into(&mut self.buffer, f.start, value);
        Ok(())
    }

    /// Write the target protocol address field.  The supplied value must be
    /// exactly as long as the protocol length the header declares; on a
    /// mismatch nothing is written and `Error::LengthMismatch` comes back.
    pub fn set_target_protocol_addr(&mut self, value: &[u8]) -> (r: Result<(), Error>)
        requires
            old(self).wf(),
        ensures
            r is Ok <==> value@.len() == old(self).spec_protocol_length() as int,
            r is Ok ==> final(self)@ == spliced(
                old(self)@,
                tpa_range(
                    old(self).spec_hardware_length(),
                    old(self).spec_protocol_length(),
                ).0,
                value@,
            ) && final(self).wf(),
            r is Err ==> final(self)@ == old(self)@ && r == Err::<(), Error>(
                Error::LengthMismatch,
            ),
    {
        let hardware_length: u8 = self.hardware_length();
        let protocol_length: u8 = self.protocol_length();
        if value.len() != protocol_length as usize {
            return Err(Error::LengthMismatch);
        }
        let f: field::Field = field::TPA(hardware_length, protocol_length);
        copy_into(&mut self.buffer, f.start, value);
        Ok(())
    }
}

} // verus!
