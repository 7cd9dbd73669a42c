//! Identification register payload: a 16-bit big-endian device id. Parts of
//! the AD7172 family report 0x00D0 through 0x00DF here.

use vstd::prelude::*;

use crate::regs::RegisterData;

verus! {

#[derive(Clone, Copy, Debug, PartialEq, Eq, Structural)]
pub struct Data {
    pub hi: u8,
    pub lo: u8,
}

impl RegisterData for Data {
    open spec fn spec_size() -> usize {
        2
    }

    open spec fn spec_bytes(&self) -> Seq<u8> {
        seq![self.hi, self.lo]
    }

    proof fn lemma_bytes_len(&self) {
    }

    fn size() -> (r: usize) {
        2
    }

    fn empty() -> (r: Self) {
        let r = Data { hi: 0, lo: 0 };
        proof {
            assert(r.spec_bytes() =~= Seq::new(2, |i: int| 0u8));
        }
        r
    }

    fn to_bytes(&self) -> (r: Vec<u8>) {
        let mut v: Vec<u8> = Vec::new();
        v.push(self.hi);
        v.push(self.lo);
        proof {
            assert(v@ =~= self.spec_bytes());
        }
        v
    }

    fn from_bytes(bytes: &Vec<u8>) -> (r: Self) {
        let r = Data { hi: bytes[0], lo: bytes[1] };
        proof {
            assert(r.spec_bytes() =~= bytes@);
        }
        r
    }
}

/// The 16-bit big-endian id spelled by a two-byte payload.
pub open spec fn spec_word(bytes: Seq<u8>) -> u16 {
    ((bytes[0] as u16) << 8) | (bytes[1] as u16)
}

impl Data {
    pub open spec fn spec_id(&self) -> u16 {
        ((self.hi as u16) << 8) | (self.lo as u16)
    }

    /// The 16-bit device id, most significant byte first.
    pub fn id(&self) -> (r: u16)
        ensures
            r == self.spec_id(),
    {
        ((self.hi as u16) << 8) | (self.lo as u16)
    }
}

} // verus!
