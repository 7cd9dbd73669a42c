//! Setup-configuration register payload: two bytes holding the bipolar flag
//! (bit 4 of the high byte), the four buffer enables (bits 0-3 of the high
//! byte) and the reference-source selector (bits 4-5 of the low byte).

use vstd::prelude::*;

use crate::fields::RefSource;
use crate::regs::RegisterData;

verus! {

#[derive(Clone, Copy, Debug, PartialEq, Eq, Structural)]
pub struct Data {
    pub hi: u8,
    pub lo: u8,
}

impl RegisterData for Data {
    open spec fn spec_size() -> usize {
        2
    }

    open spec fn spec_bytes(&self) -> Seq<u8> {
        seq![self.hi, self.lo]
    }

    proof fn lemma_bytes_len(&self) {
    }

    fn size() -> (r: usize) {
        2
    }

    fn empty() -> (r: Self) {
        let r = Data { hi: 0, lo: 0 };
        proof {
            assert(r.spec_bytes() =~= Seq::new(2, |i: int| 0u8));
        }
        r
    }

    fn to_bytes(&self) -> (r: Vec<u8>) {
        let mut v: Vec<u8> = Vec::new();
        v.push(self.hi);
        v.push(self.lo);
        proof {
            assert(v@ =~= self.spec_bytes());
        }
        v
    }

    fn from_bytes(bytes: &Vec<u8>) -> (r: Self) {
        let r = Data { hi: bytes[0], lo: bytes[1] };
        proof {
            assert(r.spec_bytes() =~= bytes@);
        }
        r
    }
}

impl Data {
    pub open spec fn spec_bipolar(&self) -> bool {
        self.hi & 0x10 != 0
    }

    pub fn bipolar(&self) -> (r: bool)
        ensures
            r == self.spec_bipolar(),
    {
        self.hi & 0x10 != 0
    }

    pub open spec fn spec_with_bipolar(self, value: bool) -> Data {
        Data { hi: if value { self.hi | 0x10 } else { self.hi & 0xEF }, lo: self.lo }
    }

    pub fn set_bipolar(&mut self, value: bool)
        ensures
            *final(self) == old(self).spec_with_bipolar(value),
    {
        self.hi = if value {
            self.hi | 0x10
        } else {
            self.hi & 0xEF
        };
    }

    pub open spec fn spec_refbuf_pos(&self) -> bool {
        self.hi & 0x08 != 0
    }

    pub fn refbuf_pos(&self) -> (r: bool)
        ensures
            r == self.spec_refbuf_pos(),
    {
        self.hi & 0x08 != 0
    }

    pub open spec fn spec_with_refbuf_pos(self, value: bool) -> Data {
        Data { hi: if value { self.hi | 0x08 } else { self.hi & 0xF7 }, lo: self.lo }
    }

    pub fn set_refbuf_pos(&mut self, value: bool)
        ensures
            *final(self) == old(self).spec_with_refbuf_pos(value),
    {
        self.hi = if value {
            self.hi | 0x08
        } else {
            self.hi & 0xF7
        };
    }

    pub open spec fn spec_refbuf_neg(&self) -> bool {
        self.hi & 0x04 != 0
    }

    pub fn refbuf_neg(&self) -> (r: bool)
        ensures
            r == self.spec_refbuf_neg(),
    {
        self.hi & 0x04 != 0
    }

    pub open spec fn spec_with_refbuf_neg(self, value: bool) -> Data {
        Data { hi: if value { self.hi | 0x04 } else { self.hi & 0xFB }, lo: self.lo }
    }

    pub fn set_refbuf_neg(&mut self, value: bool)
        ensures
            *final(self) == old(self).spec_with_refbuf_neg(value),
    {
        self.hi = if value {
            self.hi | 0x04
        } else {
            self.hi & 0xFB
        };
    }

    pub open spec fn spec_ainbuf_pos(&self) -> bool {
        self.hi & 0x02 != 0
    }

    pub fn ainbuf_pos(&self) -> (r: bool)
        ensures
            r == self.spec_ainbuf_pos(),
    {
        self.hi & 0x02 != 0
    }

    pub open spec fn spec_with_ainbuf_pos(self, value: bool) -> Data {
        Data { hi: if value { self.hi | 0x02 } else { self.hi & 0xFD }, lo: self.lo }
    }

    pub fn set_ainbuf_pos(&mut self, value: bool)
        ensures
            *final(self) == old(self).spec_with_ainbuf_pos(value),
    {
        self.hi = if value {
            self.hi | 0x02
        } else {
            self.hi & 0xFD
        };
    }

    pub open spec fn spec_ainbuf_neg(&self) -> bool {
        self.hi & 0x01 != 0
    }

    pub fn ainbuf_neg(&self) -> (r: bool)
        ensures
            r == self.spec_ainbuf_neg(),
    {
        self.hi & 0x01 != 0
    }

    pub open spec fn spec_with_ainbuf_neg(self, value: bool) -> Data {
        Data { hi: if value { self.hi | 0x01 } else { self.hi & 0xFE }, lo: self.lo }
    }

    pub fn set_ainbuf_neg(&mut self, value: bool)
        ensures
            *final(self) == old(self).spec_with_ainbuf_neg(value),
    {
        self.hi = if value {
            self.hi | 0x01
        } else {
            self.hi & 0xFE
        };
    }

    pub open spec fn spec_ref_sel_code(&self) -> u8 {
        (self.lo >> 4) & 0x03
    }

    pub open spec fn spec_ref_sel(&self) -> RefSource {
        RefSource::spec_from_code(self.spec_ref_sel_code())
    }

    /// The reference-source selector (bits 4-5 of the low byte).
    pub fn ref_sel(&self) -> (r: RefSource)
        ensures
            r == self.spec_ref_sel(),
    {
        RefSource::from_code((self.lo >> 4) & 0x03)
    }

    pub open spec fn spec_with_ref_sel(self, source: RefSource) -> Data {
        Data { hi: self.hi, lo: (self.lo & 0xCF) | (source.spec_code() << 4) }
    }

    pub fn set_ref_sel(&mut self, source: RefSource)
        ensures
            *final(self) == old(self).spec_with_ref_sel(source),
    {
        self.lo = (self.lo & 0xCF) | (source.code() << 4);
    }
}

/// Law: writing the setup fields in any payload and reading them back
/// reproduces the written values, each field landing in its own bits.
pub proof fn lemma_setup_con_roundtrip(
    d: Data,
    bipolar: bool,
    rbp: bool,
    rbn: bool,
    abp: bool,
    abn: bool,
    source: RefSource,
)
    ensures
        ({
            let d2 = d.spec_with_bipolar(bipolar).spec_with_refbuf_pos(rbp).spec_with_refbuf_neg(
                rbn,
            ).spec_with_ainbuf_pos(abp).spec_with_ainbuf_neg(abn).spec_with_ref_sel(source);
            d2.spec_bipolar() == bipolar && d2.spec_refbuf_pos() == rbp && d2.spec_refbuf_neg()
                == rbn && d2.spec_ainbuf_pos() == abp && d2.spec_ainbuf_neg() == abn
                && d2.spec_ref_sel() == source
        }),
{
    let cs = source.spec_code();
    assert(cs < 4);
    let hi = d.hi;
    let lo = d.lo;
    let h1: u8 = if bipolar {
        hi | 0x10
    } else {
        hi & 0xEF
    };
    let h2: u8 = if rbp {
        h1 | 0x08
    } else {
        h1 & 0xF7
    };
    let h3: u8 = if rbn {
        h2 | 0x04
    } else {
        h2 & 0xFB
    };
    let h4: u8 = if abp {
        h3 | 0x02
    } else {
        h3 & 0xFD
    };
    let h5: u8 = if abn {
        h4 | 0x01
    } else {
        h4 & 0xFE
    };
    let l1: u8 = (lo & 0xCF) | (cs << 4);
    assert((cs < 4) ==> ((h5 & 0x10 != 0) == bipolar && (h5 & 0x08 != 0) == rbp && (h5 & 0x04 != 0)
        == rbn && (h5 & 0x02 != 0) == abp && (h5 & 0x01 != 0) == abn && ((l1 >> 4) & 0x03) == cs))
        by (bit_vector)
        requires
            h1 == if bipolar { hi | 0x10 } else { hi & 0xEF },
            h2 == if rbp { h1 | 0x08 } else { h1 & 0xF7 },
            h3 == if rbn { h2 | 0x04 } else { h2 & 0xFB },
            h4 == if abp { h3 | 0x02 } else { h3 & 0xFD },
            h5 == if abn { h4 | 0x01 } else { h4 & 0xFE },
            l1 == (lo & 0xCF) | (cs << 4),
            cs < 4,
    ;
    crate::fields::lemma_ref_source_code_roundtrip(source);
}

} // verus!
