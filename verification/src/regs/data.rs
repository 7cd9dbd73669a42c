//! Conversion data register payload: a 24-bit big-endian conversion result
//! over three bytes.

use vstd::prelude::*;

use crate::regs::RegisterData;

verus! {

#[derive(Clone, Copy, Debug, PartialEq, Eq, Structural)]
pub struct Data {
    pub hi: u8,
    pub mid: u8,
    pub lo: u8,
}

impl RegisterData for Data {
    open spec fn spec_size() -> usize {
        3
    }

    open spec fn spec_bytes(&self) -> Seq<u8> {
        seq![self.hi, self.mid, self.lo]
    }

    proof fn lemma_bytes_len(&self) {
    }

    fn size() -> (r: usize) {
        3
    }

    fn empty() -> (r: Self) {
        let r = Data { hi: 0, mid: 0, lo: 0 };
        proof {
            assert(r.spec_bytes() =~= Seq::new(3, |i: int| 0u8));
        }
        r
    }

    fn to_bytes(&self) -> (r: Vec<u8>) {
        let mut v: Vec<u8> = Vec::new();
        v.push(self.hi);
        v.push(self.mid);
        v.push(self.lo);
        proof {
            assert(v@ =~= self.spec_bytes());
        }
        v
    }

    fn from_bytes(bytes: &Vec<u8>) -> (r: Self) {
        let r = Data { hi: bytes[0], mid: bytes[1], lo: bytes[2] };
        proof {
            assert(r.spec_bytes() =~= bytes@);
        }
        r
    }
}

/// The 24-bit big-endian value spelled by a three-byte payload.
pub open spec fn spec_word(bytes: Seq<u8>) -> u32 {
    ((bytes[0] as u32) << 16) | ((bytes[1] as u32) << 8) | (bytes[2] as u32)
}

impl Data {
    pub open spec fn spec_value(&self) -> u32 {
        ((self.hi as u32) << 16) | ((self.mid as u32) << 8) | (self.lo as u32)
    }

    /// The 24-bit conversion result, most significant byte first.
    pub fn data(&self) -> (r: u32)
        ensures
            r == self.spec_value(),
    {
        ((self.hi as u32) << 16) | ((self.mid as u32) << 8) | (self.lo as u32)
    }
}

} // verus!
