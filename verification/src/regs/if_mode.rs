//! Interface-mode register payload: two bytes, with the checksum-mode field
//! at bits 2-3 of the second (low) byte.

use vstd::prelude::*;

use crate::checksum::ChecksumMode;
use crate::regs::RegisterData;

verus! {

#[derive(Clone, Copy, Debug, PartialEq, Eq, Structural)]
pub struct Data {
    pub hi: u8,
    pub lo: u8,
}

impl RegisterData for Data {
    open spec fn spec_size() -> usize {
        2
    }

    open spec fn spec_bytes(&self) -> Seq<u8> {
        seq![self.hi, self.lo]
    }

    proof fn lemma_bytes_len(&self) {
    }

    fn size() -> (r: usize) {
        2
    }

    fn empty() -> (r: Self) {
        let r = Data { hi: 0, lo: 0 };
        proof {
            assert(r.spec_bytes() =~= Seq::new(2, |i: int| 0u8));
        }
        r
    }

    fn to_bytes(&self) -> (r: Vec<u8>) {
        let mut v: Vec<u8> = Vec::new();
        v.push(self.hi);
        v.push(self.lo);
        proof {
            assert(v@ =~= self.spec_bytes());
        }
        v
    }

    fn from_bytes(bytes: &Vec<u8>) -> (r: Self) {
        let r = Data { hi: bytes[0], lo: bytes[1] };
        proof {
            assert(r.spec_bytes() =~= bytes@);
        }
        r
    }
}

impl Data {
    pub open spec fn spec_crc_code(&self) -> u8 {
        (self.lo >> 2) & 0x03
    }

    /// The two-bit checksum-mode code currently in the payload.
    pub fn crc_code(&self) -> (r: u8)
        ensures
            r == self.spec_crc_code(),
    {
        (self.lo >> 2) & 0x03
    }

    pub open spec fn spec_with_crc(self, mode: ChecksumMode) -> Data {
        Data { hi: self.hi, lo: (self.lo & 0xF3) | (mode.spec_code() << 2) }
    }

    /// Set the checksum-mode field (bits 2-3 of the low byte).
    pub fn set_crc(&mut self, mode: ChecksumMode)
        ensures
            *final(self) == old(self).spec_with_crc(mode),
    {
        self.lo = (self.lo & 0xF3) | (mode.code() << 2);
    }
}

/// A two-byte payload rewritten to carry the given checksum mode in the
/// checksum-mode field.
pub open spec fn spec_with_crc_bytes(bytes: Seq<u8>, mode: ChecksumMode) -> Seq<u8> {
    (Data { hi: bytes[0], lo: bytes[1] }).spec_with_crc(mode).spec_bytes()
}

/// Law: the checksum-mode field written by `set_crc` reads back as the code
/// of the mode that was written, and the high byte is untouched.
pub proof fn lemma_crc_roundtrip(d: Data, mode: ChecksumMode)
    ensures
        d.spec_with_crc(mode).spec_crc_code() == mode.spec_code(),
        d.spec_with_crc(mode).hi == d.hi,
{
    let lo = d.lo;
    let c = mode.spec_code();
    assert(c < 4) by {
        assert(mode.spec_code() < 4);
    }
    assert(c < 4 ==> (((lo & 0xF3) | (c << 2)) >> 2) & 0x03 == c) by (bit_vector);
}

} // verus!
