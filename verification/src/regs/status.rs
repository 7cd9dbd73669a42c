//! Status register payload: one byte of flags. Bit 7 is "not ready", bits
//! 0-1 name the channel the pending conversion belongs to, bits 4-6 are
//! error flags.

use vstd::prelude::*;

use crate::regs::RegisterData;

verus! {

#[derive(Clone, Copy, Debug, PartialEq, Eq, Structural)]
pub struct Data {
    pub bits: u8,
}

impl RegisterData for Data {
    open spec fn spec_size() -> usize {
        1
    }

    open spec fn spec_bytes(&self) -> Seq<u8> {
        seq![self.bits]
    }

    proof fn lemma_bytes_len(&self) {
    }

    fn size() -> (r: usize) {
        1
    }

    fn empty() -> (r: Self) {
        let r = Data { bits: 0 };
        proof {
            assert(r.spec_bytes() =~= Seq::new(1, |i: int| 0u8));
        }
        r
    }

    fn to_bytes(&self) -> (r: Vec<u8>) {
        let mut v: Vec<u8> = Vec::new();
        v.push(self.bits);
        proof {
            assert(v@ =~= self.spec_bytes());
        }
        v
    }

    fn from_bytes(bytes: &Vec<u8>) -> (r: Self) {
        let r = Data { bits: bytes[0] };
        proof {
            assert(r.spec_bytes() =~= bytes@);
        }
        r
    }
}

impl Data {
    pub open spec fn spec_ready(&self) -> bool {
        self.bits & 0x80 == 0
    }

    /// Is there new data to read? Bit 7 means "not ready", so this is its
    /// inverse.
    pub fn ready(&self) -> (r: bool)
        ensures
            r == self.spec_ready(),
    {
        self.bits & 0x80 == 0
    }

    pub open spec fn spec_channel(&self) -> u8 {
        self.bits & 0x03
    }

    /// Channel for which data is ready (bits 0-1).
    pub fn channel(&self) -> (r: u8)
        ensures
            r == self.spec_channel(),
    {
        self.bits & 0x03
    }

    pub open spec fn spec_adc_error(&self) -> bool {
        self.bits & 0x40 != 0
    }

    pub fn adc_error(&self) -> (r: bool)
        ensures
            r == self.spec_adc_error(),
    {
        self.bits & 0x40 != 0
    }

    pub open spec fn spec_crc_error(&self) -> bool {
        self.bits & 0x20 != 0
    }

    pub fn crc_error(&self) -> (r: bool)
        ensures
            r == self.spec_crc_error(),
    {
        self.bits & 0x20 != 0
    }

    pub open spec fn spec_reg_error(&self) -> bool {
        self.bits & 0x10 != 0
    }

    pub fn reg_error(&self) -> (r: bool)
        ensures
            r == self.spec_reg_error(),
    {
        self.bits & 0x10 != 0
    }
}

} // verus!
