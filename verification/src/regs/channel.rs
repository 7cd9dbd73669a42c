//! Channel register payload: two bytes selecting whether the channel is
//! enabled (bit 7 of the high byte), which setup it uses (bits 4-6 of the
//! high byte) and its analog input pair (five bits each, the positive
//! selector spanning the byte boundary).

use vstd::prelude::*;

use crate::fields::Input;
use crate::regs::RegisterData;

verus! {

#[derive(Clone, Copy, Debug, PartialEq, Eq, Structural)]
pub struct Data {
    pub hi: u8,
    pub lo: u8,
}

impl RegisterData for Data {
    open spec fn spec_size() -> usize {
        2
    }

    open spec fn spec_bytes(&self) -> Seq<u8> {
        seq![self.hi, self.lo]
    }

    proof fn lemma_bytes_len(&self) {
    }

    fn size() -> (r: usize) {
        2
    }

    fn empty() -> (r: Self) {
        let r = Data { hi: 0, lo: 0 };
        proof {
            assert(r.spec_bytes() =~= Seq::new(2, |i: int| 0u8));
        }
        r
    }

    fn to_bytes(&self) -> (r: Vec<u8>) {
        let mut v: Vec<u8> = Vec::new();
        v.push(self.hi);
        v.push(self.lo);
        proof {
            assert(v@ =~= self.spec_bytes());
        }
        v
    }

    fn from_bytes(bytes: &Vec<u8>) -> (r: Self) {
        let r = Data { hi: bytes[0], lo: bytes[1] };
        proof {
            assert(r.spec_bytes() =~= bytes@);
        }
        r
    }
}

impl Data {
    pub open spec fn spec_enabled(&self) -> bool {
        self.hi & 0x80 != 0
    }

    /// Whether the channel takes part in conversions.
    pub fn enabled(&self) -> (r: bool)
        ensures
            r == self.spec_enabled(),
    {
        self.hi & 0x80 != 0
    }

    pub open spec fn spec_with_enabled(self, value: bool) -> Data {
        Data { hi: if value { self.hi | 0x80 } else { self.hi & 0x7F }, lo: self.lo }
    }

    pub fn set_enabled(&mut self, value: bool)
        ensures
            *final(self) == old(self).spec_with_enabled(value),
    {
        self.hi = if value {
            self.hi | 0x80
        } else {
            self.hi & 0x7F
        };
    }

    pub open spec fn spec_setup(&self) -> u8 {
        (self.hi >> 4) & 0x07
    }

    /// Which setup-configuration register the channel uses.
    pub fn setup(&self) -> (r: u8)
        ensures
            r == self.spec_setup(),
    {
        (self.hi >> 4) & 0x07
    }

    pub open spec fn spec_with_setup(self, value: u8) -> Data {
        Data { hi: (self.hi & 0x8F) | ((value & 0x07) << 4), lo: self.lo }
    }

    pub fn set_setup(&mut self, value: u8)
        ensures
            *final(self) == old(self).spec_with_setup(value),
    {
        self.hi = (self.hi & 0x8F) | ((value & 0x07) << 4);
    }

    pub open spec fn spec_a_in_pos_code(&self) -> u8 {
        ((self.hi & 0x03) << 3) | (self.lo >> 5)
    }

    pub open spec fn spec_a_in_pos(&self) -> Input {
        Input::spec_from_code(self.spec_a_in_pos_code())
    }

    /// The positive input selector; its five bits span the byte boundary.
    pub fn a_in_pos(&self) -> (r: Input)
        ensures
            r == self.spec_a_in_pos(),
    {
        Input::from_code(((self.hi & 0x03) << 3) | (self.lo >> 5))
    }

    pub open spec fn spec_with_a_in_pos(self, input: Input) -> Data {
        Data {
            hi: (self.hi & 0xFC) | (input.spec_code() >> 3),
            lo: (self.lo & 0x1F) | ((input.spec_code() & 0x07) << 5),
        }
    }

    pub fn set_a_in_pos(&mut self, input: Input)
        ensures
            *final(self) == old(self).spec_with_a_in_pos(input),
    {
        let code = input.code();
        self.hi = (self.hi & 0xFC) | (code >> 3);
        self.lo = (self.lo & 0x1F) | ((code & 0x07) << 5);
    }

    pub open spec fn spec_a_in_neg_code(&self) -> u8 {
        self.lo & 0x1F
    }

    pub open spec fn spec_a_in_neg(&self) -> Input {
        Input::spec_from_code(self.spec_a_in_neg_code())
    }

    /// The negative input selector (low five bits of the low byte).
    pub fn a_in_neg(&self) -> (r: Input)
        ensures
            r == self.spec_a_in_neg(),
    {
        Input::from_code(self.lo & 0x1F)
    }

    pub open spec fn spec_with_a_in_neg(self, input: Input) -> Data {
        Data { hi: self.hi, lo: (self.lo & 0xE0) | input.spec_code() }
    }

    pub fn set_a_in_neg(&mut self, input: Input)
        ensures
            *final(self) == old(self).spec_with_a_in_neg(input),
    {
        self.lo = (self.lo & 0xE0) | input.code();
    }
}

/// Law: writing the channel fields in any payload and reading them back
/// reproduces the written values, each field landing in its own bits.
pub proof fn lemma_channel_roundtrip(d: Data, en: bool, setup: u8, pos: Input, neg: Input)
    requires
        setup < 8,
    ensures
        ({
            let d2 = d.spec_with_enabled(en).spec_with_setup(setup).spec_with_a_in_pos(
                pos,
            ).spec_with_a_in_neg(neg);
            d2.spec_enabled() == en && d2.spec_setup() == setup && d2.spec_a_in_pos() == pos
                && d2.spec_a_in_neg() == neg
        }),
{
    let cp = pos.spec_code();
    let cn = neg.spec_code();
    assert(cp < 32 && cn < 32);
    let hi = d.hi;
    let lo = d.lo;
    let he: u8 = if en {
        hi | 0x80
    } else {
        hi & 0x7F
    };
    let hs: u8 = (he & 0x8F) | ((setup & 0x07) << 4);
    let hp: u8 = (hs & 0xFC) | (cp >> 3);
    let lp: u8 = (lo & 0x1F) | ((cp & 0x07) << 5);
    let ln: u8 = (lp & 0xE0) | cn;
    assert((setup < 8 && cp < 32 && cn < 32) ==> ((hp & 0x80 != 0) == (he & 0x80 != 0) && ((hp >> 4)
        & 0x07) == ((hs >> 4) & 0x07) && ((hs >> 4) & 0x07) == setup && (((hp & 0x03) << 3) | (ln
        >> 5)) == cp && (ln & 0x1F) == cn)) by (bit_vector)
        requires
            he == if en { hi | 0x80 } else { hi & 0x7F },
            hs == (he & 0x8F) | ((setup & 0x07) << 4),
            hp == (hs & 0xFC) | (cp >> 3),
            lp == (lo & 0x1F) | ((cp & 0x07) << 5),
            ln == (lp & 0xE0) | cn,
            setup < 8,
            cp < 32,
            cn < 32,
    ;
    assert(en ==> (hi | 0x80) & 0x80 != 0) by (bit_vector);
    assert(!en ==> (hi & 0x7F) & 0x80 == 0) by (bit_vector);
    crate::fields::lemma_input_code_roundtrip(pos);
    crate::fields::lemma_input_code_roundtrip(neg);
}

} // verus!
