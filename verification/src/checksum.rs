//! Per-transaction checksum accumulator.
//!
//! A fresh accumulator is created for every register transaction with one of
//! three modes: `Off` (no checksum byte at all), `Xor` (running XOR of every
//! byte fed) or `Crc` (CRC-8 with polynomial x^8 + x^2 + x + 1, MSB first, no
//! initial or final XOR; the accumulator state is the CRC register itself).

use vstd::prelude::*;

verus! {

/// The trailer integrity check negotiated between the driver and the device.
#[derive(Clone, Copy, Debug, PartialEq, Eq, Structural)]
pub enum ChecksumMode {
    Off,
    Xor,
    Crc,
}

impl ChecksumMode {
    /// The two-bit code this mode occupies in the interface-mode register.
    pub open spec fn spec_code(self) -> u8 {
        match self {
            ChecksumMode::Off => 0,
            ChecksumMode::Xor => 1,
            ChecksumMode::Crc => 2,
        }
    }

    pub fn code(self) -> (r: u8)
        ensures
            r == self.spec_code(),
    {
        match self {
            ChecksumMode::Off => 0,
            ChecksumMode::Xor => 1,
            ChecksumMode::Crc => 2,
        }
    }
}

/// One shift step of the CRC-8 register: shift left by one and fold in the
/// polynomial 0x07 whenever the bit shifted out disagrees with the incoming
/// message bit.
pub open spec fn crc_step(state: u8, bit: bool) -> u8 {
    if ((state & 0x80) != 0) != bit {
        (state << 1) ^ 0x07
    } else {
        state << 1
    }
}

/// The CRC-8 register after the `n` most significant bits of `input` have
/// been shifted in, MSB first.
pub open spec fn crc_bits(state: u8, input: u8, n: nat) -> u8
    decreases n,
{
    if n == 0 {
        state
    } else {
        crc_step(crc_bits(state, input, (n - 1) as nat), input & (0x80u8 >> ((n - 1) as u8)) != 0)
    }
}

/// The CRC-8 register after a whole byte has been shifted in.
pub open spec fn crc_feed(state: u8, input: u8) -> u8 {
    crc_bits(state, input, 8)
}

/// The accumulator state after one byte, for a given mode.
pub open spec fn feed_byte(mode: ChecksumMode, state: u8, input: u8) -> u8 {
    match mode {
        ChecksumMode::Off => state,
        ChecksumMode::Xor => state ^ input,
        ChecksumMode::Crc => crc_feed(state, input),
    }
}

/// The accumulator state after a whole byte sequence, fed front to back.
pub open spec fn feed_bytes(mode: ChecksumMode, state: u8, bytes: Seq<u8>) -> u8
    decreases bytes.len(),
{
    if bytes.len() == 0 {
        state
    } else {
        feed_bytes(mode, feed_byte(mode, state, bytes[0]), bytes.skip(1))
    }
}

/// What `result` reports for a given mode and accumulator state.
pub open spec fn checksum_value(mode: ChecksumMode, state: u8) -> Option<u8> {
    match mode {
        ChecksumMode::Off => None,
        _ => Some(state),
    }
}

/// Feeding bytes one past the front commutes with feeding the tail.
pub proof fn lemma_feed_bytes_push(mode: ChecksumMode, state: u8, bytes: Seq<u8>, b: u8)
    ensures
        feed_bytes(mode, state, bytes.push(b)) == feed_byte(mode, feed_bytes(mode, state, bytes), b),
    decreases bytes.len(),
{
    let pushed = bytes.push(b);
    assert(pushed.len() == bytes.len() + 1);
    if bytes.len() == 0 {
        assert(pushed[0] == b);
        assert(pushed.skip(1) =~= Seq::<u8>::empty());
        assert(feed_bytes(mode, state, pushed) == feed_bytes(
            mode,
            feed_byte(mode, state, b),
            pushed.skip(1),
        ));
        assert(feed_bytes(mode, feed_byte(mode, state, b), Seq::<u8>::empty()) == feed_byte(
            mode,
            state,
            b,
        ));
        assert(feed_bytes(mode, state, bytes) == state);
    } else {
        assert(pushed[0] == bytes[0]);
        assert(pushed.skip(1) =~= bytes.skip(1).push(b));
        assert(feed_bytes(mode, state, pushed) == feed_bytes(
            mode,
            feed_byte(mode, state, bytes[0]),
            bytes.skip(1).push(b),
        ));
        lemma_feed_bytes_push(mode, feed_byte(mode, state, bytes[0]), bytes.skip(1), b);
        assert(feed_bytes(mode, state, bytes) == feed_bytes(
            mode,
            feed_byte(mode, state, bytes[0]),
            bytes.skip(1),
        ));
    }
}

/// With the checksum disabled the accumulator never moves and never reports a
/// value: whatever bytes are fed, the state stays put and `result` is `None`.
pub proof fn lemma_off_is_inert(state: u8, bytes: Seq<u8>)
    ensures
        feed_bytes(ChecksumMode::Off, state, bytes) == state,
        checksum_value(ChecksumMode::Off, feed_bytes(ChecksumMode::Off, state, bytes)) is None,
    decreases bytes.len(),
{
    if bytes.len() > 0 {
        lemma_off_is_inert(state, bytes.skip(1));
    }
}

/// A byte-at-a-time checksum calculator. The mode is fixed at construction;
/// a fresh accumulator is made for each transaction.
pub struct Checksum {
    mode: ChecksumMode,
    state: u8,
}

impl Checksum {
    pub closed spec fn spec_mode(&self) -> ChecksumMode {
        self.mode
    }

    pub closed spec fn spec_state(&self) -> u8 {
        self.state
    }

    /// A zeroed accumulator for the given mode.
    pub fn new(mode: ChecksumMode) -> (r: Self)
        ensures
            r.spec_mode() == mode,
            r.spec_state() == 0,
    {
        Checksum { mode, state: 0 }
    }

    /// Absorb one byte: a no-op for `Off`, a running XOR for `Xor`, eight
    /// shift-and-conditionally-XOR steps for `Crc`.
    pub fn feed(&mut self, input: u8)
        ensures
            final(self).spec_mode() == old(self).spec_mode(),
            final(self).spec_state() == feed_byte(
                old(self).spec_mode(),
                old(self).spec_state(),
                input,
            ),
    {
        match self.mode {
            ChecksumMode::Off => {},
            ChecksumMode::Xor => {
                self.state = self.state ^ input;
            },
            ChecksumMode::Crc => {
                let ghost start: u8 = self.state;
                let mut i: u8 = 0;
                while i < 8
                    invariant
                        i <= 8,
                        self.mode == ChecksumMode::Crc,
                        self.state == crc_bits(start, input, i as nat),
                    decreases 8 - i,
                {
                    let bit = input & (0x80u8 >> i) != 0;
                    self.state = if ((self.state & 0x80) != 0) != bit {
                        (self.state << 1) ^ 0x07
                    } else {
                        self.state << 1
                    };
                    i = i + 1;
                }
            },
        }
    }

    /// The checksum byte owed so far: `None` for `Off`, the accumulator state
    /// otherwise.
    pub fn result(&self) -> (r: Option<u8>)
        ensures
            r == checksum_value(self.spec_mode(), self.spec_state()),
    {
        match self.mode {
            ChecksumMode::Off => None,
            _ => Some(self.state),
        }
    }
}

} // verus!
