//! Enumerated field values used by the register codecs: analog input
//! selectors, reference sources and digital-filter configuration codes.

use vstd::prelude::*;

verus! {

/// Analog input selector for one side of a channel's input pair.
#[derive(Clone, Copy, Debug, PartialEq, Eq, Structural)]
pub enum Input {
    Ain0,
    Ain1,
    Ain2,
    Ain3,
    Ain4,
    TemperaturePos,
    TemperatureNeg,
    AnalogSupplyPos,
    AnalogSupplyNeg,
    RefPos,
    RefNeg,
    Invalid,
}

impl Input {
    /// The five-bit code this input occupies in the channel register.
    pub open spec fn spec_code(self) -> u8 {
        match self {
            Input::Ain0 => 0,
            Input::Ain1 => 1,
            Input::Ain2 => 2,
            Input::Ain3 => 3,
            Input::Ain4 => 4,
            Input::TemperaturePos => 17,
            Input::TemperatureNeg => 18,
            Input::AnalogSupplyPos => 19,
            Input::AnalogSupplyNeg => 20,
            Input::RefPos => 21,
            Input::RefNeg => 22,
            Input::Invalid => 31,
        }
    }

    pub fn code(self) -> (r: u8)
        ensures
            r == self.spec_code(),
            r < 32,
    {
        match self {
            Input::Ain0 => 0,
            Input::Ain1 => 1,
            Input::Ain2 => 2,
            Input::Ain3 => 3,
            Input::Ain4 => 4,
            Input::TemperaturePos => 17,
            Input::TemperatureNeg => 18,
            Input::AnalogSupplyPos => 19,
            Input::AnalogSupplyNeg => 20,
            Input::RefPos => 21,
            Input::RefNeg => 22,
            Input::Invalid => 31,
        }
    }

    /// The input a five-bit code selects; unassigned codes are `Invalid`.
    pub open spec fn spec_from_code(code: u8) -> Input {
        match code {
            0 => Input::Ain0,
            1 => Input::Ain1,
            2 => Input::Ain2,
            3 => Input::Ain3,
            4 => Input::Ain4,
            17 => Input::TemperaturePos,
            18 => Input::TemperatureNeg,
            19 => Input::AnalogSupplyPos,
            20 => Input::AnalogSupplyNeg,
            21 => Input::RefPos,
            22 => Input::RefNeg,
            _ => Input::Invalid,
        }
    }

    pub fn from_code(code: u8) -> (r: Input)
        ensures
            r == Input::spec_from_code(code),
    {
        match code {
            0 => Input::Ain0,
            1 => Input::Ain1,
            2 => Input::Ain2,
            3 => Input::Ain3,
            4 => Input::Ain4,
            17 => Input::TemperaturePos,
            18 => Input::TemperatureNeg,
            19 => Input::AnalogSupplyPos,
            20 => Input::AnalogSupplyNeg,
            21 => Input::RefPos,
            22 => Input::RefNeg,
            _ => Input::Invalid,
        }
    }
}

/// Decoding an input's own code gives the input back, for every selector.
pub proof fn lemma_input_code_roundtrip(input: Input)
    ensures
        Input::spec_from_code(input.spec_code()) == input,
{
}

/// Reference source for a conversion setup.
#[derive(Clone, Copy, Debug, PartialEq, Eq, Structural)]
pub enum RefSource {
    /// External reference.
    External,
    /// Internal 2.5 V reference.
    Internal,
    /// AVDD1 minus AVSS.
    Avdd1MinusAvss,
    Invalid,
}

impl RefSource {
    /// The two-bit code this source occupies in the setup register.
    pub open spec fn spec_code(self) -> u8 {
        match self {
            RefSource::External => 0,
            RefSource::Invalid => 1,
            RefSource::Internal => 2,
            RefSource::Avdd1MinusAvss => 3,
        }
    }

    pub fn code(self) -> (r: u8)
        ensures
            r == self.spec_code(),
            r < 4,
    {
        match self {
            RefSource::External => 0,
            RefSource::Invalid => 1,
            RefSource::Internal => 2,
            RefSource::Avdd1MinusAvss => 3,
        }
    }

    pub open spec fn spec_from_code(code: u8) -> RefSource {
        match code {
            0 => RefSource::External,
            2 => RefSource::Internal,
            3 => RefSource::Avdd1MinusAvss,
            _ => RefSource::Invalid,
        }
    }

    pub fn from_code(code: u8) -> (r: RefSource)
        ensures
            r == RefSource::spec_from_code(code),
    {
        match code {
            0 => RefSource::External,
            2 => RefSource::Internal,
            3 => RefSource::Avdd1MinusAvss,
            _ => RefSource::Invalid,
        }
    }
}

/// Decoding a reference source's own code gives the source back.
pub proof fn lemma_ref_source_code_roundtrip(src: RefSource)
    ensures
        RefSource::spec_from_code(src.spec_code()) == src,
{
}

/// Enhanced post-filter output-rate selection.
#[derive(Clone, Copy, Debug, PartialEq, Eq, Structural)]
pub enum PostFilter {
    /// 27 SPS, 47 dB rejection, 36.7 ms settling.
    F27SPS,
    /// 21.25 SPS, 62 dB rejection, 40 ms settling.
    F21SPS,
    /// 20 SPS, 86 dB rejection, 50 ms settling.
    F20SPS,
    /// 16.67 SPS, 92 dB rejection, 60 ms settling.
    F16SPS,
    Invalid,
}

impl PostFilter {
    /// The three-bit code this rate occupies in the filter register.
    pub open spec fn spec_code(self) -> u8 {
        match self {
            PostFilter::F27SPS => 2,
            PostFilter::F21SPS => 3,
            PostFilter::F20SPS => 5,
            PostFilter::F16SPS => 6,
            PostFilter::Invalid => 7,
        }
    }

    pub fn code(self) -> (r: u8)
        ensures
            r == self.spec_code(),
            r < 8,
    {
        match self {
            PostFilter::F27SPS => 2,
            PostFilter::F21SPS => 3,
            PostFilter::F20SPS => 5,
            PostFilter::F16SPS => 6,
            PostFilter::Invalid => 7,
        }
    }

    pub open spec fn spec_from_code(code: u8) -> PostFilter {
        match code {
            2 => PostFilter::F27SPS,
            3 => PostFilter::F21SPS,
            5 => PostFilter::F20SPS,
            6 => PostFilter::F16SPS,
            _ => PostFilter::Invalid,
        }
    }

    pub fn from_code(code: u8) -> (r: PostFilter)
        ensures
            r == PostFilter::spec_from_code(code),
    {
        match code {
            2 => PostFilter::F27SPS,
            3 => PostFilter::F21SPS,
            5 => PostFilter::F20SPS,
            6 => PostFilter::F16SPS,
            _ => PostFilter::Invalid,
        }
    }
}

/// Decoding a post-filter's own code gives the post-filter back.
pub proof fn lemma_post_filter_code_roundtrip(filter: PostFilter)
    ensures
        PostFilter::spec_from_code(filter.spec_code()) == filter,
{
}

/// Digital filter order selection.
#[derive(Clone, Copy, Debug, PartialEq, Eq, Structural)]
pub enum DigitalFilterOrder {
    Sinc5Sinc1,
    Sinc3,
    Invalid,
}

impl DigitalFilterOrder {
    /// The two-bit code this order occupies in the filter register.
    pub open spec fn spec_code(self) -> u8 {
        match self {
            DigitalFilterOrder::Sinc5Sinc1 => 0,
            DigitalFilterOrder::Invalid => 2,
            DigitalFilterOrder::Sinc3 => 3,
        }
    }

    pub fn code(self) -> (r: u8)
        ensures
            r == self.spec_code(),
            r < 4,
    {
        match self {
            DigitalFilterOrder::Sinc5Sinc1 => 0,
            DigitalFilterOrder::Invalid => 2,
            DigitalFilterOrder::Sinc3 => 3,
        }
    }

    pub open spec fn spec_from_code(code: u8) -> DigitalFilterOrder {
        match code {
            0 => DigitalFilterOrder::Sinc5Sinc1,
            3 => DigitalFilterOrder::Sinc3,
            _ => DigitalFilterOrder::Invalid,
        }
    }

    pub fn from_code(code: u8) -> (r: DigitalFilterOrder)
        ensures
            r == DigitalFilterOrder::spec_from_code(code),
    {
        match code {
            0 => DigitalFilterOrder::Sinc5Sinc1,
            3 => DigitalFilterOrder::Sinc3,
            _ => DigitalFilterOrder::Invalid,
        }
    }
}

/// Decoding a filter order's own code gives the order back.
pub proof fn lemma_filter_order_code_roundtrip(order: DigitalFilterOrder)
    ensures
        DigitalFilterOrder::spec_from_code(order.spec_code()) == order,
{
}

} // verus!
