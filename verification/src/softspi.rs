//! Bit-banged SPI shift engine.
//!
//! The engine is a pure state machine over logic levels: it owns the levels
//! it drives onto the clock (`sck`) and data-out (`mosi`) lines, and each
//! [`SoftSpi::tick`] advances it by exactly one clock half-phase, taking the
//! level currently seen on the data-in (MISO) line as an argument. A caller
//! with real pins drives the lines to the stored levels after every tick and
//! samples MISO before it; a test harness hands in a scripted sample. The
//! engine performs no delay of its own: ticks must arrive at twice the
//! intended bit rate.
//!
//! The clock idles high and data is sampled on the rising edge, which fixes
//! the SPI mode the peer device must use. Bit order is MSB first.

use vstd::prelude::*;

verus! {

/// Why `send` or `read` could not complete.
#[derive(Clone, Copy, Debug, PartialEq, Eq, Structural)]
pub enum SpiError {
    /// A transfer is still in progress; retry after more ticks.
    WouldBlock,
    /// Nothing is in flight and no received byte is pending.
    Exhausted,
}

/// The shift register's phase: idle, or mid-byte.
#[derive(Clone, Copy, Debug, PartialEq, Eq, Structural)]
pub enum SpiState {
    Idle,
    Transfer { clock_phase: bool, mask: u8, output: u8, input: u8 },
}

/// The engine: line levels it drives, shift state, and the most recently
/// completed input byte (consumed by `read`).
#[derive(Clone, Copy, Debug, PartialEq, Eq, Structural)]
pub struct SoftSpi {
    pub sck: bool,
    pub mosi: bool,
    pub state: SpiState,
    pub input: Option<u8>,
}

/// The engine after one clock half-phase with `miso` on the data-in line.
///
/// On the data-setup phase (`clock_phase` false) the engine drives MOSI to
/// the bit `mask` selects in the output byte and pulls the clock low. On the
/// sample phase it raises the clock and ORs the MISO level into the input
/// accumulator at `mask`; when `mask` was 1 the byte is complete: it is
/// published and the engine returns to idle.
pub open spec fn spec_tick(s: SoftSpi, miso: bool) -> SoftSpi {
    match s.state {
        SpiState::Idle => s,
        SpiState::Transfer { clock_phase, mask, output, input } => {
            if !clock_phase {
                SoftSpi {
                    sck: false,
                    mosi: output & mask != 0,
                    state: SpiState::Transfer { clock_phase: true, mask, output, input },
                    input: s.input,
                }
            } else {
                let gathered = if miso {
                    input | mask
                } else {
                    input
                };
                if mask != 1 {
                    SoftSpi {
                        sck: true,
                        mosi: s.mosi,
                        state: SpiState::Transfer {
                            clock_phase: false,
                            mask: mask >> 1,
                            output,
                            input: gathered,
                        },
                        input: s.input,
                    }
                } else {
                    SoftSpi {
                        sck: true,
                        mosi: s.mosi,
                        state: SpiState::Idle,
                        input: Some(gathered),
                    }
                }
            }
        },
    }
}

/// The engine after a run of ticks, one per sample, stopping early if the
/// transfer completes.
pub open spec fn spec_run(s: SoftSpi, samples: Seq<bool>) -> SoftSpi
    decreases samples.len(),
{
    if samples.len() == 0 || s.state is Idle {
        s
    } else {
        spec_run(spec_tick(s, samples[0]), samples.skip(1))
    }
}

/// The input accumulator after shifting in `bits`, MSB first, starting at
/// `mask`.
pub open spec fn gather_bits(input: u8, mask: u8, bits: Seq<bool>) -> u8
    decreases bits.len(),
{
    if bits.len() == 0 {
        input
    } else {
        gather_bits(if bits[0] { input | mask } else { input }, mask >> 1, bits.skip(1))
    }
}

/// The byte eight MISO levels spell, most significant bit first.
pub open spec fn byte_from_msb_bits(bits: Seq<bool>) -> u8 {
    gather_bits(0, 0x80, bits)
}

impl SoftSpi {
    /// A fresh engine: idle, clock high, data-out low, nothing received.
    pub fn new() -> (r: Self)
        ensures
            r == (SoftSpi { sck: true, mosi: false, state: SpiState::Idle, input: None }),
    {
        SoftSpi { sck: true, mosi: false, state: SpiState::Idle, input: None }
    }

    /// Start shifting a byte out. Fails fast with `WouldBlock` while a
    /// transfer is already in progress, leaving the in-flight state alone.
    pub fn send(&mut self, output: u8) -> (r: Result<(), SpiError>)
        ensures
            old(self).state is Idle ==> r is Ok && *final(self) == (SoftSpi {
                sck: old(self).sck,
                mosi: old(self).mosi,
                state: SpiState::Transfer { clock_phase: false, mask: 0x80, output, input: 0 },
                input: old(self).input,
            }),
            !(old(self).state is Idle) ==> r == Err::<(), SpiError>(SpiError::WouldBlock)
                && *final(self) == *old(self),
    {
        match self.state {
            SpiState::Idle => {
                self.state = SpiState::Transfer {
                    clock_phase: false,
                    mask: 0x80,
                    output,
                    input: 0,
                };
                Ok(())
            },
            _ => Err(SpiError::WouldBlock),
        }
    }

    /// Take the most recently completed input byte. While a transfer is in
    /// progress this is `WouldBlock`; idle with nothing pending it is
    /// `Exhausted`.
    pub fn read(&mut self) -> (r: Result<u8, SpiError>)
        ensures
            match old(self).input {
                Some(b) => r == Ok::<u8, SpiError>(b) && *final(self) == (SoftSpi {
                    sck: old(self).sck,
                    mosi: old(self).mosi,
                    state: old(self).state,
                    input: None,
                }),
                None => *final(self) == *old(self) && r == Err::<u8, SpiError>(
                    if old(self).state is Idle {
                        SpiError::Exhausted
                    } else {
                        SpiError::WouldBlock
                    },
                ),
            },
    {
        match self.input {
            Some(input) => {
                self.input = None;
                Ok(input)
            },
            None => {
                match self.state {
                    SpiState::Idle => Err(SpiError::Exhausted),
                    _ => Err(SpiError::WouldBlock),
                }
            },
        }
    }

    /// Advance the shift register by one clock half-phase; `miso` is the
    /// level currently on the data-in line. Call at twice the bit rate.
    pub fn tick(&mut self, miso: bool)
        ensures
            *final(self) == spec_tick(*old(self), miso),
    {
        match self.state {
            SpiState::Idle => {},
            SpiState::Transfer { clock_phase: false, mask, output, input } => {
                self.mosi = output & mask != 0;
                self.sck = false;
                self.state = SpiState::Transfer { clock_phase: true, mask, output, input };
            },
            SpiState::Transfer { clock_phase: true, mask, output, input } => {
                self.sck = true;
                let gathered = if miso {
                    input | mask
                } else {
                    input
                };
                if mask != 1 {
                    self.state = SpiState::Transfer {
                        clock_phase: false,
                        mask: mask >> 1,
                        output,
                        input: gathered,
                    };
                } else {
                    self.input = Some(gathered);
                    self.state = SpiState::Idle;
                }
            },
        }
    }

    /// Tick through the given MISO samples, stopping early once the transfer
    /// completes.
    pub fn run(&mut self, samples: &Vec<bool>)
        ensures
            *final(self) == spec_run(*old(self), samples@),
    {
        let mut i: usize = 0;
        proof {
            assert(samples@.skip(0) =~= samples@);
        }
        while i < samples.len() && !self.is_idle()
            invariant
                i <= samples@.len(),
                spec_run(*old(self), samples@) == spec_run(*self, samples@.skip(i as int)),
            decreases samples@.len() - i,
        {
            proof {
                assert(samples@.skip(i as int)[0] == samples@[i as int]);
                assert(samples@.skip(i as int).skip(1) =~= samples@.skip(i as int + 1));
            }
            self.tick(samples[i]);
            i = i + 1;
        }
        proof {
            if i < samples@.len() {
                assert(self.state is Idle);
            } else {
                assert(samples@.skip(i as int) =~= Seq::<bool>::empty());
            }
        }
    }

    /// Whether no transfer is in progress.
    pub fn is_idle(&self) -> (r: bool)
        ensures
            r == (self.state is Idle),
    {
        match self.state {
            SpiState::Idle => true,
            _ => false,
        }
    }
}

/// Helper for the bit-ordering law: running a partially shifted transfer to
/// completion gathers the remaining sample-phase levels into the input
/// accumulator at the remaining mask positions, and goes idle.
proof fn lemma_run_gathers(s: SoftSpi, samples: Seq<bool>, k: u8)
    requires
        k <= 7,
        samples.len() == 2 * (8 - k),
        s.state matches SpiState::Transfer { clock_phase: false, mask, output, input } && mask
            == 0x80u8 >> k,
    ensures
        ({
            let done = spec_run(s, samples);
            let odd = Seq::new((8 - k) as nat, |j: int| samples[2 * j + 1]);
            done.state is Idle && done.sck && (s.state matches SpiState::Transfer {
                clock_phase: false,
                mask,
                output,
                input,
            } ==> done.mosi == (output & 1 != 0) && done.input == Some(
                gather_bits(input, mask, odd),
            ))
        }),
    decreases 8 - k,
{
    let mask = s.state->Transfer_mask;
    let output = s.state->Transfer_output;
    let input = s.state->Transfer_input;
    assert(mask == 0x80u8 >> k);
    assert(k < 7 ==> (0x80u8 >> k) >> 1 == 0x80u8 >> ((k + 1) as u8)) by (bit_vector);
    assert((0x80u8 >> k) == 1 <==> k == 7) by (bit_vector)
        requires
            k <= 7,
    ;
    let s1 = spec_tick(s, samples[0]);
    assert(s1.state == (SpiState::Transfer { clock_phase: true, mask, output, input }));
    let s2 = spec_tick(s1, samples[1]);
    let gathered = if samples[1] {
        input | mask
    } else {
        input
    };
    let odd = Seq::new((8 - k) as nat, |j: int| samples[2 * j + 1]);
    assert(odd[0] == samples[1]);
    assert(spec_run(s, samples) == spec_run(s2, samples.skip(2))) by {
        assert(spec_run(s, samples) == spec_run(s1, samples.skip(1)));
        assert(samples.skip(1)[0] == samples[1]);
        assert(samples.skip(1).skip(1) =~= samples.skip(2));
    }
    if k == 7 {
        assert(mask == 1);
        assert(s2.state is Idle && s2.input == Some(gathered));
        assert(s1.mosi == (output & mask != 0));
        assert(s2.mosi == (output & 1 != 0));
        assert(samples.skip(2) =~= Seq::<bool>::empty());
        assert(spec_run(s2, samples.skip(2)) == s2);
        assert(odd.skip(1) =~= Seq::<bool>::empty());
        assert(gather_bits(input, mask, odd) == gather_bits(gathered, mask >> 1, odd.skip(1)));
        assert(gather_bits(gathered, mask >> 1, odd.skip(1)) == gathered);
    } else {
        assert(mask != 1);
        assert(s2.state == (SpiState::Transfer {
            clock_phase: false,
            mask: mask >> 1,
            output,
            input: gathered,
        }));
        let rest = samples.skip(2);
        assert(rest.len() == 2 * (8 - (k + 1)));
        lemma_run_gathers(s2, rest, (k + 1) as u8);
        let odd_rest = Seq::new((8 - (k + 1)) as nat, |j: int| rest[2 * j + 1]);
        assert(odd_rest =~= odd.skip(1));
        assert(gather_bits(input, mask, odd) == gather_bits(gathered, mask >> 1, odd.skip(1)));
    }
}

/// Helper: gathering the low `8 - k` bits of `b`, MSB first from bit `7 - k`
/// downwards, ORs exactly those bits of `b` into the accumulator.
proof fn lemma_gather_low_bits(input: u8, b: u8, k: u8)
    requires
        k <= 7,
    ensures
        gather_bits(
            input,
            0x80u8 >> k,
            Seq::new((8 - k) as nat, |j: int| b & (0x80u8 >> ((k + j) as u8)) != 0),
        ) == input | (b & (0xFFu8 >> k)),
    decreases 8 - k,
{
    let bits = Seq::new((8 - k) as nat, |j: int| b & (0x80u8 >> ((k + j) as u8)) != 0);
    let mask = 0x80u8 >> k;
    let step: u8 = if bits[0] {
        input | mask
    } else {
        input
    };
    assert(bits[0] == (b & mask != 0));
    if k == 7 {
        assert(bits.skip(1) =~= Seq::<bool>::empty());
        assert(gather_bits(input, mask, bits) == gather_bits(step, mask >> 1, bits.skip(1)));
        assert((if b & (0x80u8 >> k) != 0 {
            input | (0x80u8 >> k)
        } else {
            input
        }) == input | (b & (0xFFu8 >> k))) by (bit_vector)
            requires
                k == 7u8,
        ;
    } else {
        lemma_gather_low_bits(step, b, (k + 1) as u8);
        assert(bits.skip(1) =~= Seq::new(
            (8 - (k + 1)) as nat,
            |j: int| b & (0x80u8 >> (((k + 1) + j) as u8)) != 0,
        ));
        assert((0x80u8 >> k) >> 1 == 0x80u8 >> ((k + 1) as u8)) by (bit_vector)
            requires
                k < 7u8,
        ;
        assert(gather_bits(input, mask, bits) == gather_bits(step, mask >> 1, bits.skip(1)));
        assert((if b & (0x80u8 >> k) != 0 {
            input | (0x80u8 >> k)
        } else {
            input
        }) | (b & (0xFFu8 >> ((k + 1) as u8))) == input | (b & (0xFFu8 >> k))) by (bit_vector)
            requires
                k < 7u8,
        ;
    }
}

/// The byte spelled by a byte's own bits is that byte: presenting the bits
/// of `b` on the eight sample phases, MSB first, reconstructs exactly `b`.
pub proof fn lemma_byte_bits_reconstruct(b: u8)
    ensures
        byte_from_msb_bits(Seq::new(8, |j: int| b & (0x80u8 >> (j as u8)) != 0)) == b,
{
    lemma_gather_low_bits(0, b, 0);
    assert(Seq::new(8, |j: int| b & (0x80u8 >> (j as u8)) != 0) =~= Seq::new(
        (8 - 0) as nat,
        |j: int| b & (0x80u8 >> ((0 + j) as u8)) != 0,
    ));
    assert(0x80u8 >> 0u8 == 0x80u8 && 0u8 | (b & (0xFFu8 >> 0u8)) == b) by (bit_vector);
}

/// Bit-ordering law: a byte is received MSB first. Starting right after
/// `send`, sixteen ticks (eight bits, two half-phases each) complete the
/// transfer and publish exactly the byte whose bits are the MISO levels seen
/// on the eight sample phases, most significant bit first. The clock is left
/// high and MOSI holds the last bit shifted out.
pub proof fn lemma_receive_msb_first(s: SoftSpi, samples: Seq<bool>)
    requires
        samples.len() == 16,
        s.state matches SpiState::Transfer { clock_phase: false, mask: 0x80u8, output, input: 0u8 },
    ensures
        spec_run(s, samples) == (SoftSpi {
            sck: true,
            mosi: s.state->Transfer_output & 1 != 0,
            state: SpiState::Idle,
            input: Some(byte_from_msb_bits(Seq::new(8, |j: int| samples[2 * j + 1]))),
        }),
{
    assert(0x80u8 == 0x80u8 >> 0u8) by (bit_vector);
    lemma_run_gathers(s, samples, 0);
}

/// The error of a [`SyncSoftSpi`] transfer: the engine was mid-byte, or the
/// supplied MISO levels ran out before the buffer completed.
#[derive(Clone, Copy, Debug, PartialEq, Eq, Structural)]
pub struct OutOfSamples;

/// Ghost model of a [`SyncSoftSpi`]: the engine, the MISO levels the line
/// will show, and how many of them the ticks so far have consumed.
pub ghost struct SyncModel {
    pub spi: SoftSpi,
    pub levels: Seq<bool>,
    pub taken: int,
}

/// The byte the engine gathers from the `k`-th sixteen-tick window of
/// `levels` starting at `taken`: the levels seen on the odd (sample) phases,
/// most significant bit first.
pub open spec fn window_byte(levels: Seq<bool>, taken: int, k: int) -> u8 {
    byte_from_msb_bits(Seq::new(8, |j: int| levels[taken + 16 * k + 2 * j + 1]))
}

/// The synchronous wrapper: transfers a whole buffer by, for each byte,
/// submitting it to the engine and ticking it to completion, sixteen ticks a
/// byte. The MISO level for each tick comes from `levels`; on the target the
/// harness refills them from the physical line, paced by its delay source,
/// while a test scripts them.
pub struct SyncSoftSpi {
    pub spi: SoftSpi,
    /// The MISO levels the coming ticks will see, one per tick.
    pub levels: Vec<bool>,
    /// How many levels were consumed already.
    pub taken: usize,
}

impl View for SyncSoftSpi {
    type V = SyncModel;

    open spec fn view(&self) -> SyncModel {
        SyncModel { spi: self.spi, levels: self.levels@, taken: self.taken as int }
    }
}

impl SyncSoftSpi {
    /// A wrapper over a fresh engine with the given scripted MISO levels.
    pub fn new(levels: Vec<bool>) -> (r: Self)
        ensures
            r@.spi == (SoftSpi { sck: true, mosi: false, state: SpiState::Idle, input: None }),
            r@.levels == levels@,
            r@.taken == 0,
    {
        SyncSoftSpi { spi: SoftSpi::new(), levels, taken: 0 }
    }
}

impl crate::port::SpiPort for SyncSoftSpi {
    type Error = OutOfSamples;

    open spec fn spec_ok(v: SyncModel, tx: Seq<u8>) -> bool {
        &&& v.spi.state is Idle
        &&& v.spi.input is None
        &&& 0 <= v.taken
        &&& v.taken + 16 * tx.len() <= v.levels.len()
    }

    open spec fn spec_rx(v: SyncModel, tx: Seq<u8>) -> Seq<u8> {
        Seq::new(tx.len(), |k: int| window_byte(v.levels, v.taken, k))
    }

    open spec fn spec_next(v: SyncModel, tx: Seq<u8>) -> SyncModel {
        SyncModel {
            spi: if tx.len() == 0 {
                v.spi
            } else {
                SoftSpi {
                    sck: true,
                    mosi: tx.last() & 1 != 0,
                    state: SpiState::Idle,
                    input: None,
                }
            },
            levels: v.levels,
            taken: v.taken + 16 * tx.len(),
        }
    }

    proof fn lemma_rx_len(v: SyncModel, tx: Seq<u8>) {
    }

    fn transfer(&mut self, tx: &Vec<u8>) -> (r: Result<Vec<u8>, OutOfSamples>) {
        let n = tx.len();
        if !self.spi.is_idle() || !self.input_is_empty() {
            return Err(OutOfSamples);
        }
        if self.taken > self.levels.len() || (self.levels.len() - self.taken) / 16 < n {
            proof {
                assert(16 * n > self.levels@.len() - self.taken);
            }
            return Err(OutOfSamples);
        }
        proof {
            assert(self.taken + 16 * n <= self.levels@.len());
        }
        let ghost v0 = self@;
        let mut rx: Vec<u8> = Vec::new();
        let mut k: usize = 0;
        while k < n
            invariant
                k <= n,
                n == tx@.len(),
                self.levels@ == v0.levels,
                self.taken == v0.taken + 16 * k,
                v0.taken + 16 * n <= v0.levels.len(),
                v0.levels.len() <= usize::MAX,
                rx@ =~= Seq::new(k as nat, |kk: int| window_byte(v0.levels, v0.taken, kk)),
                self.spi.state is Idle,
                self.spi.input is None,
                k == 0 ==> self.spi == v0.spi,
                k > 0 ==> self.spi == (SoftSpi {
                    sck: true,
                    mosi: tx@[k - 1] & 1 != 0,
                    state: SpiState::Idle,
                    input: None,
                }),
            decreases n - k,
        {
            let out = tx[k];
            let send_result = self.spi.send(out);
            proof {
                assert(send_result is Ok);
            }
            let mut window: Vec<bool> = Vec::new();
            let mut t: usize = 0;
            while t < 16
                invariant
                    t <= 16,
                    self.taken + 16 <= self.levels@.len(),
                    self.levels@.len() <= usize::MAX,
                    window@ =~= self.levels@.subrange(self.taken as int, self.taken + t),
                decreases 16 - t,
            {
                window.push(self.levels[self.taken + t]);
                t = t + 1;
            }
            let ghost before = self.spi;
            self.spi.run(&window);
            proof {
                lemma_receive_msb_first(before, window@);
                assert(Seq::new(8, |j: int| window@[2 * j + 1]) =~= Seq::new(
                    8,
                    |j: int| v0.levels[v0.taken + 16 * k + 2 * j + 1],
                ));
            }
            let b = match self.spi.read() {
                Ok(b) => b,
                Err(_) => {
                    proof {
                        assert(false);
                    }
                    0
                },
            };
            proof {
                assert(b == window_byte(v0.levels, v0.taken, k as int));
                assert(rx@.push(b) =~= Seq::new(
                    (k + 1) as nat,
                    |kk: int| window_byte(v0.levels, v0.taken, kk),
                ));
            }
            rx.push(b);
            self.taken = self.taken + 16;
            k = k + 1;
        }
        proof {
            assert(rx@ =~= Self::spec_rx(v0, tx@));
            if n > 0 {
                assert(tx@[n - 1] == tx@.last());
            }
            assert(self@ == Self::spec_next(v0, tx@));
        }
        Ok(rx)
    }
}

impl SyncSoftSpi {
    /// Whether no completed byte is waiting to be read.
    fn input_is_empty(&self) -> (r: bool)
        ensures
            r == (self.spi.input is None),
    {
        match self.spi.input {
            None => true,
            Some(_) => false,
        }
    }
}

/// Loopback corollary of the two laws above: when the peer presents the
/// bits of `b` on the eight sample phases, MSB first, a full sixteen-tick
/// transfer publishes exactly `b`.
pub proof fn lemma_receives_exact_byte(s: SoftSpi, samples: Seq<bool>, b: u8)
    requires
        samples.len() == 16,
        s.state matches SpiState::Transfer { clock_phase: false, mask: 0x80u8, output, input: 0u8 },
        forall|j: int| 0 <= j < 8 ==> #[trigger] samples[2 * j + 1] == (b & (0x80u8 >> (j as u8))
            != 0),
    ensures
        spec_run(s, samples).state is Idle,
        spec_run(s, samples).input == Some(b),
{
    lemma_receive_msb_first(s, samples);
    lemma_byte_bits_reconstruct(b);
    assert(Seq::new(8, |j: int| samples[2 * j + 1]) =~= Seq::new(
        8,
        |j: int| b & (0x80u8 >> (j as u8)) != 0,
    ));
}

} // verus!
