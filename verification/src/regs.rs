//! Register catalog: one descriptor per device register, each with a fixed
//! address (optionally offset by a channel index) and a fixed-size payload
//! codec with typed bit-field accessors.
//!
//! Addresses are as transmitted; a read request additionally sets the read
//! bit (0x40) in the address byte.

use vstd::prelude::*;

pub mod channel;
pub mod data;
pub mod filt_con;
pub mod id;
pub mod if_mode;
pub mod setup_con;
pub mod status;

verus! {

/// Base address of the per-channel configuration registers.
pub const CHANNEL_BASE: u8 = 0x10;

/// Base address of the per-channel setup-configuration registers.
pub const SETUP_CON_BASE: u8 = 0x20;

/// Base address of the per-channel filter-configuration registers. The
/// device revision targeted here places them at 0x80; treat this constant as
/// configuration to be checked against the specific target's datasheet.
pub const FILT_CON_BASE: u8 = 0x80;

/// Largest channel index the device provides.
pub const MAX_CHANNEL_INDEX: u8 = 3;

/// A fixed-size register payload with a byte-sequence view.
pub trait RegisterData: Sized {
    /// Payload size in bytes.
    spec fn spec_size() -> usize;

    /// The payload as the bytes it occupies on the wire, first byte first.
    spec fn spec_bytes(&self) -> Seq<u8>;

    /// The byte view always has exactly `spec_size` bytes.
    proof fn lemma_bytes_len(&self)
        ensures
            self.spec_bytes().len() == Self::spec_size(),
    ;

    /// Payload size in bytes.
    fn size() -> (r: usize)
        ensures
            r == Self::spec_size(),
    ;

    /// An all-zero payload.
    fn empty() -> (r: Self)
        ensures
            r.spec_bytes() == Seq::new(Self::spec_size() as nat, |i: int| 0u8),
    ;

    /// The payload bytes, first byte first.
    fn to_bytes(&self) -> (r: Vec<u8>)
        ensures
            r@ == self.spec_bytes(),
    ;

    /// The payload a byte buffer of the right size decodes to.
    fn from_bytes(bytes: &Vec<u8>) -> (r: Self)
        requires
            bytes@.len() == Self::spec_size(),
        ensures
            r.spec_bytes() == bytes@,
    ;
}

/// A register descriptor: a payload type and an address computation.
pub trait Register {
    type Data: RegisterData;

    /// Whether the descriptor denotes a real register; for channel-indexed
    /// registers this bounds the index. Callers must uphold it.
    spec fn spec_valid(&self) -> bool;

    /// The register's address as transmitted (without the read bit).
    spec fn spec_address(&self) -> u8;

    fn address(&self) -> (r: u8)
        requires
            self.spec_valid(),
        ensures
            r == self.spec_address(),
    ;
}

/// Status register: one byte of ready/error flags.
pub struct Status;

impl Register for Status {
    type Data = status::Data;

    open spec fn spec_valid(&self) -> bool {
        true
    }

    open spec fn spec_address(&self) -> u8 {
        0x00
    }

    fn address(&self) -> (r: u8) {
        0x00
    }
}

/// Interface-mode register: holds the checksum-mode field.
pub struct IfMode;

impl Register for IfMode {
    type Data = if_mode::Data;

    open spec fn spec_valid(&self) -> bool {
        true
    }

    open spec fn spec_address(&self) -> u8 {
        0x02
    }

    fn address(&self) -> (r: u8) {
        0x02
    }
}

/// Conversion data register: a 24-bit big-endian result.
pub struct Data;

impl Register for Data {
    type Data = data::Data;

    open spec fn spec_valid(&self) -> bool {
        true
    }

    open spec fn spec_address(&self) -> u8 {
        0x04
    }

    fn address(&self) -> (r: u8) {
        0x04
    }
}

/// Identification register: a 16-bit big-endian device id.
pub struct Id;

impl Register for Id {
    type Data = id::Data;

    open spec fn spec_valid(&self) -> bool {
        true
    }

    open spec fn spec_address(&self) -> u8 {
        0x07
    }

    fn address(&self) -> (r: u8) {
        0x07
    }
}

/// Per-channel configuration register at `CHANNEL_BASE + index`.
pub struct Channel {
    pub index: u8,
}

impl Register for Channel {
    type Data = channel::Data;

    open spec fn spec_valid(&self) -> bool {
        self.index <= MAX_CHANNEL_INDEX
    }

    open spec fn spec_address(&self) -> u8 {
        (CHANNEL_BASE + self.index) as u8
    }

    fn address(&self) -> (r: u8) {
        CHANNEL_BASE + self.index
    }
}

/// Per-channel setup-configuration register at `SETUP_CON_BASE + index`.
pub struct SetupCon {
    pub index: u8,
}

impl Register for SetupCon {
    type Data = setup_con::Data;

    open spec fn spec_valid(&self) -> bool {
        self.index <= MAX_CHANNEL_INDEX
    }

    open spec fn spec_address(&self) -> u8 {
        (SETUP_CON_BASE + self.index) as u8
    }

    fn address(&self) -> (r: u8) {
        SETUP_CON_BASE + self.index
    }
}

/// Per-channel filter-configuration register at `FILT_CON_BASE + index`.
pub struct FiltCon {
    pub index: u8,
}

impl Register for FiltCon {
    type Data = filt_con::Data;

    open spec fn spec_valid(&self) -> bool {
        self.index <= MAX_CHANNEL_INDEX
    }

    open spec fn spec_address(&self) -> u8 {
        (FILT_CON_BASE + self.index) as u8
    }

    fn address(&self) -> (r: u8) {
        FILT_CON_BASE + self.index
    }
}

} // verus!
