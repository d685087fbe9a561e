//! The status register: one byte, read as a bit field.

use vstd::prelude::*;

verus! {

/// A snapshot of the status register.
///
/// Only the named bits are kept; whatever else the chip reports is dropped
/// when the snapshot is taken.
#[derive(Clone, Copy, Debug, PartialEq, Eq, Structural)]
pub struct Status {
    bits: u8,
}

impl Status {
    /// Erase or write in progress.
    pub const BUSY: u8 = 0x01;

    /// Status of the write enable latch.
    pub const WEL: u8 = 0x02;

    /// The three protection region bits.
    pub const PROT: u8 = 0x1C;

    /// Status register write disable bit.
    pub const SRWD: u8 = 0x80;

    /// Every bit that has a name.
    pub const ALL: u8 = 0x9F;

    /// The bits this snapshot holds.
    pub closed spec fn spec_bits(&self) -> u8 {
        self.bits
    }

    /// No bit without a name is ever set in a snapshot.
    #[verifier::type_invariant]
    pub closed spec fn named_bits_only(&self) -> bool {
        self.bits & Status::ALL == self.bits
    }

    /// The snapshot that a raw register value decodes to.
    pub closed spec fn decode(raw: u8) -> Status {
        Status { bits: raw & Status::ALL }
    }

    /// Whether every bit of `mask` is set.
    pub open spec fn spec_contains(&self, mask: u8) -> bool {
        self.spec_bits() & mask == mask
    }

    /// Whether an erase or write is in progress.
    pub open spec fn spec_is_busy(&self) -> bool {
        self.spec_contains(Status::BUSY)
    }

    /// Takes a snapshot from a raw register value. Bits without a name are
    /// dropped, never refused.
    pub fn from_bits_truncate(raw: u8) -> (status: Status)
        ensures
            status == Status::decode(raw),
            status.spec_bits() == raw & Status::ALL,
    {
        let bits: u8 = raw & Status::ALL;
        assert(bits & 0x9F == bits) by (bit_vector)
            requires
                bits == raw & 0x9F,
        ;
        Status { bits }
    }

    /// Takes a snapshot from a raw register value, unless a bit without a
    /// name is set in it.
    pub fn from_bits(raw: u8) -> (status: Option<Status>)
        ensures
            status is Some <==> raw & Status::ALL == raw,
            status is Some ==> status->0 == Status::decode(raw) && status->0.spec_bits() == raw,
    {
        if raw & Status::ALL == raw {
            Some(Status { bits: raw })
        } else {
            None
        }
    }

    /// The bits this snapshot holds.
    #[verifier::when_used_as_spec(spec_bits)]
    pub fn bits(&self) -> (bits: u8)
        ensures
            bits == self.spec_bits(),
            bits & Status::ALL == bits,
    {
        proof {
            use_type_invariant(self);
        }
        self.bits
    }

    /// Whether every bit of `mask` is set.
    #[verifier::when_used_as_spec(spec_contains)]
    pub fn contains(&self, mask: u8) -> (all: bool)
        ensures
            all == self.spec_contains(mask),
    {
        self.bits & mask == mask
    }

    /// Whether an erase or write is in progress.
    #[verifier::when_used_as_spec(spec_is_busy)]
    pub fn is_busy(&self) -> (busy: bool)
        ensures
            busy == self.spec_is_busy(),
    {
        self.contains(Status::BUSY)
    }

    /// Whether the write enable latch is set.
    pub fn is_write_enabled(&self) -> (set: bool)
        ensures
            set == self.spec_contains(Status::WEL),
    {
        self.contains(Status::WEL)
    }

    /// The protection region, as a number from 0 to 7: bits 2 to 4 of the
    /// register.
    pub fn protection(&self) -> (region: u8)
        ensures
            region == (self.spec_bits() >> 2) & 0x07,
            region < 8,
    {
        let bits: u8 = self.bits;
        let region: u8 = (bits & Status::PROT) >> 2;
        assert(region == (bits >> 2) & 0x07 && region < 8) by (bit_vector)
            requires
                region == (bits & 0x1C) >> 2,
        ;
        region
    }

    /// Whether writes to the status register are disabled.
    pub fn is_write_disabled(&self) -> (set: bool)
        ensures
            set == self.spec_contains(Status::SRWD),
    {
        self.contains(Status::SRWD)
    }
}

/// What each named region of a snapshot is, in terms of the raw register
/// value it was taken from: bit 0 is the busy flag, bit 1 the write enable
/// latch, bits 2 to 4 the protection region, bit 7 the write disable flag.
/// Bits 5 and 6 have no part in it.
pub proof fn lemma_decode_regions(raw: u8)
    ensures
        Status::decode(raw).spec_bits() == raw & Status::ALL,
        Status::decode(raw).spec_is_busy() <==> raw % 2 == 1,
        Status::decode(raw).spec_contains(Status::WEL) <==> (raw / 2) % 2 == 1,
        (Status::decode(raw).spec_bits() >> 2) & 0x07 == (raw / 4) % 8,
        Status::decode(raw).spec_contains(Status::SRWD) <==> raw >= 128,
        Status::decode(raw) == Status::decode(raw & Status::ALL),
{
    let kept: u8 = raw & 0x9F;
    assert((kept & 0x01 == 0x01) <==> raw % 2 == 1) by (bit_vector)
        requires
            kept == raw & 0x9F,
    ;
    assert((kept & 0x02 == 0x02) <==> (raw / 2) % 2 == 1) by (bit_vector)
        requires
            kept == raw & 0x9F,
    ;
    assert((kept >> 2) & 0x07 == (raw / 4) % 8) by (bit_vector)
        requires
            kept == raw & 0x9F,
    ;
    assert((kept & 0x80 == 0x80) <==> raw >= 128) by (bit_vector)
        requires
            kept == raw & 0x9F,
    ;
    assert(kept & 0x9F == kept) by (bit_vector)
        requires
            kept == raw & 0x9F,
    ;
}

} // verus!
