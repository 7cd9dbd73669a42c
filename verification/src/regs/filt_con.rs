//! Filter-configuration register payload: two bytes holding the enhanced
//! post-filter enable (bit 3 of the high byte), the post-filter rate code
//! (bits 0-2 of the high byte) and the filter-order code (bits 5-6 of the
//! low byte).

use vstd::prelude::*;

use crate::fields::DigitalFilterOrder;
use crate::fields::PostFilter;
use crate::regs::RegisterData;

verus! {

#[derive(Clone, Copy, Debug, PartialEq, Eq, Structural)]
pub struct Data {
    pub hi: u8,
    pub lo: u8,
}

impl RegisterData for Data {
    open spec fn spec_size() -> usize {
        2
    }

    open spec fn spec_bytes(&self) -> Seq<u8> {
        seq![self.hi, self.lo]
    }

    proof fn lemma_bytes_len(&self) {
    }

    fn size() -> (r: usize) {
        2
    }

    fn empty() -> (r: Self) {
        let r = Data { hi: 0, lo: 0 };
        proof {
            assert(r.spec_bytes() =~= Seq::new(2, |i: int| 0u8));
        }
        r
    }

    fn to_bytes(&self) -> (r: Vec<u8>) {
        let mut v: Vec<u8> = Vec::new();
        v.push(self.hi);
        v.push(self.lo);
        proof {
            assert(v@ =~= self.spec_bytes());
        }
        v
    }

    fn from_bytes(bytes: &Vec<u8>) -> (r: Self) {
        let r = Data { hi: bytes[0], lo: bytes[1] };
        proof {
            assert(r.spec_bytes() =~= bytes@);
        }
        r
    }
}

impl Data {
    pub open spec fn spec_enh_filt_en(&self) -> bool {
        self.hi & 0x08 != 0
    }

    /// Whether the enhanced post-filter is enabled.
    pub fn enh_filt_en(&self) -> (r: bool)
        ensures
            r == self.spec_enh_filt_en(),
    {
        self.hi & 0x08 != 0
    }

    pub open spec fn spec_with_enh_filt_en(self, value: bool) -> Data {
        Data { hi: if value { self.hi | 0x08 } else { self.hi & 0xF7 }, lo: self.lo }
    }

    pub fn set_enh_filt_en(&mut self, value: bool)
        ensures
            *final(self) == old(self).spec_with_enh_filt_en(value),
    {
        self.hi = if value {
            self.hi | 0x08
        } else {
            self.hi & 0xF7
        };
    }

    pub open spec fn spec_enh_filt_code(&self) -> u8 {
        self.hi & 0x07
    }

    pub open spec fn spec_enh_filt(&self) -> PostFilter {
        PostFilter::spec_from_code(self.spec_enh_filt_code())
    }

    /// The post-filter rate selection (bits 0-2 of the high byte).
    pub fn enh_filt(&self) -> (r: PostFilter)
        ensures
            r == self.spec_enh_filt(),
    {
        PostFilter::from_code(self.hi & 0x07)
    }

    pub open spec fn spec_with_enh_filt(self, filter: PostFilter) -> Data {
        Data { hi: (self.hi & 0xF8) | filter.spec_code(), lo: self.lo }
    }

    pub fn set_enh_filt(&mut self, filter: PostFilter)
        ensures
            *final(self) == old(self).spec_with_enh_filt(filter),
    {
        self.hi = (self.hi & 0xF8) | filter.code();
    }

    pub open spec fn spec_order_code(&self) -> u8 {
        (self.lo >> 5) & 0x03
    }

    pub open spec fn spec_order(&self) -> DigitalFilterOrder {
        DigitalFilterOrder::spec_from_code(self.spec_order_code())
    }

    /// The digital filter order selection (bits 5-6 of the low byte).
    pub fn order(&self) -> (r: DigitalFilterOrder)
        ensures
            r == self.spec_order(),
    {
        DigitalFilterOrder::from_code((self.lo >> 5) & 0x03)
    }

    pub open spec fn spec_with_order(self, order: DigitalFilterOrder) -> Data {
        Data { hi: self.hi, lo: (self.lo & 0x9F) | (order.spec_code() << 5) }
    }

    pub fn set_order(&mut self, order: DigitalFilterOrder)
        ensures
            *final(self) == old(self).spec_with_order(order),
    {
        self.lo = (self.lo & 0x9F) | (order.code() << 5);
    }
}

/// The post-filter a two-byte payload reports: the rate when the enhanced
/// filter is enabled, `None` otherwise.
pub open spec fn spec_postfilter_of(bytes: Seq<u8>) -> Option<PostFilter> {
    let d = Data { hi: bytes[0], lo: bytes[1] };
    if d.spec_enh_filt_en() {
        Some(d.spec_enh_filt())
    } else {
        None
    }
}

/// A two-byte payload rewritten to carry the given post-filter choice:
/// disabled for `None`, enabled with the rate for `Some`.
pub open spec fn spec_with_postfilter(bytes: Seq<u8>, filter: Option<PostFilter>) -> Seq<u8> {
    let d = Data { hi: bytes[0], lo: bytes[1] };
    match filter {
        None => d.spec_with_enh_filt_en(false).spec_bytes(),
        Some(f) => d.spec_with_enh_filt_en(true).spec_with_enh_filt(f).spec_bytes(),
    }
}

/// Law: writing the filter fields in any payload and reading them back
/// reproduces the written values, each field landing in its own bits.
pub proof fn lemma_filt_con_roundtrip(
    d: Data,
    en: bool,
    filter: PostFilter,
    order: DigitalFilterOrder,
)
    ensures
        ({
            let d2 = d.spec_with_enh_filt_en(en).spec_with_enh_filt(filter).spec_with_order(order);
            d2.spec_enh_filt_en() == en && d2.spec_enh_filt() == filter && d2.spec_order() == order
        }),
{
    let cf = filter.spec_code();
    let co = order.spec_code();
    assert(cf < 8 && co < 4);
    let hi = d.hi;
    let lo = d.lo;
    let h1: u8 = if en {
        hi | 0x08
    } else {
        hi & 0xF7
    };
    let h2: u8 = (h1 & 0xF8) | cf;
    let l1: u8 = (lo & 0x9F) | (co << 5);
    assert((cf < 8 && co < 4) ==> ((h2 & 0x08 != 0) == en && (h2 & 0x07) == cf && ((l1 >> 5) & 0x03)
        == co)) by (bit_vector)
        requires
            h1 == if en { hi | 0x08 } else { hi & 0xF7 },
            h2 == (h1 & 0xF8) | cf,
            l1 == (lo & 0x9F) | (co << 5),
            cf < 8,
            co < 4,
    ;
    crate::fields::lemma_post_filter_code_roundtrip(filter);
    crate::fields::lemma_filter_order_code_roundtrip(order);
}

} // verus!
