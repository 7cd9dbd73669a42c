//! Transaction orchestrator.
//!
//! Every register transaction is one frame under a single chip-select
//! window: the address byte, the payload bytes, and — whenever the checksum
//! mode is not `Off` — one trailing checksum byte. A read sets the read bit
//! (0x40) in the address byte, sends a zeroed payload, checks the returned
//! checksum over the address byte plus the returned payload, and fails with
//! [`AdcError::ChecksumMismatch`] when they differ. A write never sets the
//! read bit and always frames its checksum with CRC, even when the read-side
//! mode is XOR.
//!
//! The orchestrator is the single owner of the current checksum mode; the
//! device is never asked for it.

use vstd::prelude::*;

use crate::checksum::checksum_value;
use crate::checksum::feed_byte;
use crate::checksum::feed_bytes;
use crate::checksum::lemma_feed_bytes_push;
use crate::checksum::Checksum;
use crate::checksum::ChecksumMode;
use crate::fields::DigitalFilterOrder;
use crate::fields::Input;
use crate::fields::PostFilter;
use crate::fields::RefSource;
use crate::port::SpiPort;
use crate::regs::Register;
use crate::regs::RegisterData;

verus! {

/// A failed register transaction.
#[derive(Clone, Debug, PartialEq, Eq)]
pub enum AdcError<SPI> {
    /// The underlying transfer failed; fatal to this transaction.
    SPI(SPI),
    /// Computed and received checksum differ: expected, then received. A
    /// side is `None` when that side produced no checksum byte.
    ChecksumMismatch(Option<u8>, Option<u8>),
}

impl<SPI> From<SPI> for AdcError<SPI> {
    fn from(e: SPI) -> (r: Self)
        ensures
            r == AdcError::SPI(e),
    {
        AdcError::SPI(e)
    }
}

impl<SPI> vstd::std_specs::convert::FromSpecImpl<SPI> for AdcError<SPI> {
    open spec fn obeys_from_spec() -> bool {
        true
    }

    open spec fn from_spec(e: SPI) -> Self {
        AdcError::SPI(e)
    }
}

/// Outcome of one modelled transaction over a port with view `V`: done (with
/// the payload read or written), checksum mismatch (expected, received), or
/// a failed transfer. Each carries the port state left behind.
pub ghost enum Txn<V> {
    Done(V, Seq<u8>),
    Mismatch(V, Option<u8>, Option<u8>),
    Failed(V),
}

/// The checksum mode a write is framed under: writes always use CRC when any
/// checksum mode is active.
pub open spec fn write_mode(mode: ChecksumMode) -> ChecksumMode {
    match mode {
        ChecksumMode::Off => ChecksumMode::Off,
        ChecksumMode::Xor => ChecksumMode::Crc,
        ChecksumMode::Crc => ChecksumMode::Crc,
    }
}

/// The frame a read transaction sends: the address byte (read bit already
/// set), a zeroed payload, and — unless the mode is `Off` — the checksum of
/// the address byte alone, which is what the driver has accumulated by then.
pub open spec fn read_frame(mode: ChecksumMode, addr: u8, size: nat) -> Seq<u8> {
    seq![addr] + Seq::new(size, |i: int| 0u8) + if mode is Off {
        Seq::<u8>::empty()
    } else {
        seq![feed_byte(mode, 0, addr)]
    }
}

/// The checksum a read transaction expects back: the mode's checksum over
/// the address byte followed by the payload that was received.
pub open spec fn read_expected(mode: ChecksumMode, addr: u8, payload: Seq<u8>) -> Option<u8> {
    checksum_value(mode, feed_bytes(mode, feed_byte(mode, 0, addr), payload))
}

/// The frame a write transaction sends: the address byte, the payload, and —
/// unless the write mode is `Off` — the write-mode checksum over both.
pub open spec fn write_frame(mode: ChecksumMode, addr: u8, bytes: Seq<u8>) -> Seq<u8> {
    let wmode = write_mode(mode);
    seq![addr] + bytes + if wmode is Off {
        Seq::<u8>::empty()
    } else {
        seq![feed_bytes(wmode, feed_byte(wmode, 0, addr), bytes)]
    }
}

/// What reading `size` payload bytes from register address `addr` (read bit
/// included) does to a port in state `v`, under checksum mode `mode`.
pub open spec fn model_read<P: SpiPort>(
    v: P::V,
    mode: ChecksumMode,
    addr: u8,
    size: nat,
) -> Txn<P::V> {
    let frame = read_frame(mode, addr, size);
    if !P::spec_ok(v, frame) {
        Txn::Failed(v)
    } else {
        let rx = P::spec_rx(v, frame);
        let v2 = P::spec_next(v, frame);
        let payload = rx.subrange(1, 1 + size as int);
        let expected = read_expected(mode, addr, payload);
        let received = if mode is Off {
            None
        } else {
            Some(rx[1 + size as int])
        };
        if expected == received {
            Txn::Done(v2, payload)
        } else {
            Txn::Mismatch(v2, expected, received)
        }
    }
}

/// What writing `bytes` to register address `addr` does to a port in state
/// `v`, under checksum mode `mode`.
pub open spec fn model_write<P: SpiPort>(
    v: P::V,
    mode: ChecksumMode,
    addr: u8,
    bytes: Seq<u8>,
) -> Txn<P::V> {
    let frame = write_frame(mode, addr, bytes);
    if P::spec_ok(v, frame) {
        Txn::Done(P::spec_next(v, frame), bytes)
    } else {
        Txn::Failed(v)
    }
}

/// A read-modify-write: read the register, rewrite its payload with `f`,
/// write the result back. Not atomic on the device: two transactions.
pub open spec fn model_rmw<P: SpiPort>(
    v: P::V,
    mode: ChecksumMode,
    addr: u8,
    size: nat,
    f: spec_fn(Seq<u8>) -> Seq<u8>,
) -> Txn<P::V> {
    match model_read::<P>(v, mode, (0x40 | addr), size) {
        Txn::Done(v2, payload) => model_write::<P>(v2, mode, addr, f(payload)),
        m => m,
    }
}

/// The fixed reset sequence: eight 0xFF bytes, sent without a checksum
/// whatever the mode.
pub open spec fn reset_frame() -> Seq<u8> {
    Seq::new(8, |i: int| 0xFFu8)
}

/// The transaction orchestrator: owns the port and the current checksum
/// mode for the lifetime of the session.
pub struct Adc<P: SpiPort> {
    pub port: P,
    pub checksum_mode: ChecksumMode,
}

impl<P: SpiPort> Adc<P> {
    /// A new session over `port`: checksum off, device reset.
    pub fn new(port: P) -> (r: Result<Adc<P>, P::Error>)
        ensures
            P::spec_ok(port@, reset_frame()) ==> (r matches Ok(adc) && adc.port@ == P::spec_next(
                port@,
                reset_frame(),
            ) && adc.checksum_mode is Off),
            !P::spec_ok(port@, reset_frame()) ==> r is Err,
    {
        let mut adc = Adc { port, checksum_mode: ChecksumMode::Off };
        match adc.reset() {
            Ok(()) => Ok(adc),
            Err(e) => Err(e),
        }
    }

    /// Transfer the documented reset pattern: eight 0xFF bytes, independent
    /// of the checksum mode.
    pub fn reset(&mut self) -> (r: Result<(), P::Error>)
        ensures
            final(self).checksum_mode == old(self).checksum_mode,
            r is Ok <==> P::spec_ok(old(self).port@, reset_frame()),
            r is Ok ==> final(self).port@ == P::spec_next(old(self).port@, reset_frame()),
            r is Err ==> final(self).port@ == old(self).port@,
    {
        let mut tx: Vec<u8> = Vec::new();
        let mut i: usize = 0;
        while i < 8
            invariant
                i <= 8,
                tx@ =~= Seq::new(i as nat, |j: int| 0xFFu8),
            decreases 8 - i,
        {
            tx.push(0xFF);
            i = i + 1;
        }
        proof {
            assert(tx@ =~= reset_frame());
        }
        match self.port.transfer(&tx) {
            Ok(_) => Ok(()),
            Err(e) => Err(e),
        }
    }

    /// Read a register: send the address with the read bit, collect the
    /// payload, and check the trailing checksum over address plus payload.
    /// On a mismatch both checksums are reported and the payload dropped.
    pub fn read_reg<R: Register>(&mut self, reg: &R) -> (r: Result<R::Data, AdcError<P::Error>>)
        requires
            reg.spec_valid(),
        ensures
            final(self).checksum_mode == old(self).checksum_mode,
            ({
                let m = model_read::<P>(
                    old(self).port@,
                    old(self).checksum_mode,
                    (0x40 | reg.spec_address()),
                    R::Data::spec_size() as nat,
                );
                match m {
                    Txn::Done(v2, payload) => r is Ok && final(self).port@ == v2 && (r matches Ok(d)
                        ==> d.spec_bytes() == payload),
                    Txn::Mismatch(v2, e, c) => r == Err::<R::Data, AdcError<P::Error>>(
                        AdcError::ChecksumMismatch(e, c),
                    ) && final(self).port@ == v2,
                    Txn::Failed(v2) => r is Err && (r matches Err(err) ==> err is SPI)
                        && final(self).port@ == v2,
                }
            }),
    {
        let ghost mode = self.checksum_mode;
        let size = R::Data::size();
        let address = 0x40 | reg.address();
        let mut checksum = Checksum::new(self.checksum_mode);
        checksum.feed(address);
        let checksum_out = checksum.result();
        let mut tx: Vec<u8> = Vec::new();
        tx.push(address);
        let mut i: usize = 0;
        while i < size
            invariant
                i <= size,
                tx@ =~= seq![address] + Seq::new(i as nat, |j: int| 0u8),
            decreases size - i,
        {
            tx.push(0);
            i = i + 1;
        }
        match checksum_out {
            Some(c) => tx.push(c),
            None => (),
        }
        proof {
            assert(tx@ =~= read_frame(mode, address, size as nat));
        }
        let ghost frame = tx@;
        let frame_len = tx.len();
        match self.port.transfer(&tx) {
            Err(e) => Err(AdcError::SPI(e)),
            Ok(rx) => {
                proof {
                    P::lemma_rx_len(old(self).port@, frame);
                }
                let mut payload: Vec<u8> = Vec::new();
                let mut i: usize = 0;
                while i < size
                    invariant
                        i <= size,
                        frame_len == size + 1 + if mode is Off { 0int } else { 1int },
                        rx@.len() == frame_len,
                        payload@ =~= rx@.subrange(1, 1 + i as int),
                        checksum.spec_mode() == mode,
                        checksum.spec_state() == feed_bytes(
                            mode,
                            feed_byte(mode, 0, address),
                            payload@,
                        ),
                    decreases size - i,
                {
                    let b = rx[1 + i];
                    proof {
                        lemma_feed_bytes_push(mode, feed_byte(mode, 0, address), payload@, b);
                        assert(payload@.push(b) =~= rx@.subrange(1, 1 + (i + 1) as int));
                    }
                    payload.push(b);
                    checksum.feed(b);
                    i = i + 1;
                }
                let checksum_expected = checksum.result();
                let checksum_in = match checksum_out {
                    Some(_) => Some(rx[1 + size]),
                    None => None,
                };
                let agree = match (checksum_expected, checksum_in) {
                    (None, None) => true,
                    (Some(a), Some(b)) => a == b,
                    _ => false,
                };
                if agree {
                    Ok(R::Data::from_bytes(&payload))
                } else {
                    Err(AdcError::ChecksumMismatch(checksum_expected, checksum_in))
                }
            },
        }
    }

    /// Write a register: send the address without the read bit, the payload,
    /// and — whenever the mode is not `Off` — a CRC checksum over both, even
    /// when the read-side mode is XOR.
    pub fn write_reg<R: Register>(&mut self, reg: &R, data: &R::Data) -> (r: Result<
        (),
        AdcError<P::Error>,
    >)
        requires
            reg.spec_valid(),
        ensures
            final(self).checksum_mode == old(self).checksum_mode,
            ({
                let m = model_write::<P>(
                    old(self).port@,
                    old(self).checksum_mode,
                    reg.spec_address(),
                    data.spec_bytes(),
                );
                match m {
                    Txn::Done(v2, _) => r is Ok && final(self).port@ == v2,
                    Txn::Mismatch(_v2, _e, _c) => false,
                    Txn::Failed(v2) => r is Err && (r matches Err(err) ==> err is SPI)
                        && final(self).port@ == v2,
                }
            }),
    {
        let ghost mode = self.checksum_mode;
        let address = reg.address();
        let wmode = match self.checksum_mode {
            ChecksumMode::Off => ChecksumMode::Off,
            // write checksums are always CRC
            ChecksumMode::Xor => ChecksumMode::Crc,
            ChecksumMode::Crc => ChecksumMode::Crc,
        };
        let mut checksum = Checksum::new(wmode);
        checksum.feed(address);
        let bytes = data.to_bytes();
        let mut tx: Vec<u8> = Vec::new();
        tx.push(address);
        let mut i: usize = 0;
        proof {
            assert(bytes@.take(0) =~= Seq::<u8>::empty());
        }
        while i < bytes.len()
            invariant
                i <= bytes@.len(),
                tx@ =~= seq![address] + bytes@.take(i as int),
                checksum.spec_mode() == write_mode(mode),
                checksum.spec_state() == feed_bytes(
                    write_mode(mode),
                    feed_byte(write_mode(mode), 0, address),
                    bytes@.take(i as int),
                ),
            decreases bytes@.len() - i,
        {
            let b = bytes[i];
            proof {
                lemma_feed_bytes_push(
                    write_mode(mode),
                    feed_byte(write_mode(mode), 0, address),
                    bytes@.take(i as int),
                    b,
                );
                assert(bytes@.take(i as int).push(b) =~= bytes@.take(i as int + 1));
            }
            tx.push(b);
            checksum.feed(b);
            i = i + 1;
        }
        proof {
            assert(bytes@.take(bytes@.len() as int) =~= bytes@);
        }
        match checksum.result() {
            Some(c) => tx.push(c),
            None => (),
        }
        proof {
            assert(tx@ =~= write_frame(mode, address, data.spec_bytes()));
        }
        match self.port.transfer(&tx) {
            Ok(_) => Ok(()),
            Err(e) => Err(AdcError::SPI(e)),
        }
    }

    /// Read a register, rewrite the payload with `f`, and write it back:
    /// the only sanctioned way to change part of a register. The two device
    /// transactions are not atomic; nothing locks the bus between them.
    pub fn update_reg<R: Register, F: FnOnce(R::Data) -> R::Data>(&mut self, reg: &R, f: F) -> (r:
        Result<(), AdcError<P::Error>>)
        requires
            reg.spec_valid(),
            forall|d: R::Data| #[trigger] call_requires(f, (d,)),
        ensures
            final(self).checksum_mode == old(self).checksum_mode,
            ({
                let m1 = model_read::<P>(
                    old(self).port@,
                    old(self).checksum_mode,
                    0x40 | reg.spec_address(),
                    R::Data::spec_size() as nat,
                );
                match m1 {
                    Txn::Done(v2, payload) => exists|d0: R::Data, d1: R::Data|
                        {
                            &&& d0.spec_bytes() == payload
                            &&& #[trigger] call_ensures(f, (d0,), d1)
                            &&& match model_write::<P>(
                                v2,
                                old(self).checksum_mode,
                                reg.spec_address(),
                                d1.spec_bytes(),
                            ) {
                                Txn::Done(v3, _) => r is Ok && final(self).port@ == v3,
                                Txn::Mismatch(_v3, _e, _c) => false,
                                Txn::Failed(v3) => r is Err && (r matches Err(err) ==> err is SPI)
                                    && final(self).port@ == v3,
                            }
                        },
                    Txn::Mismatch(v2, e, c) => r == Err::<(), AdcError<P::Error>>(
                        AdcError::ChecksumMismatch(e, c),
                    ) && final(self).port@ == v2,
                    Txn::Failed(v2) => r is Err && (r matches Err(err) ==> err is SPI)
                        && final(self).port@ == v2,
                }
            }),
    {
        match self.read_reg(reg) {
            Ok(data) => {
                let ghost d0 = data;
                let updated = f(data);
                let result = match self.write_reg(reg, &updated) {
                    Ok(()) => Ok(()),
                    Err(e) => Err(e),
                };
                proof {
                    assert(call_ensures(f, (d0,), updated));
                }
                result
            },
            Err(e) => Err(e),
        }
    }

    /// Read the id register. Parts of this device family report
    /// 0x00D0-0x00DF; the caller classifies other values as a corrupt read,
    /// distinct from a transport failure.
    pub fn identify(&mut self) -> (r: Result<u16, AdcError<P::Error>>)
        ensures
            final(self).checksum_mode == old(self).checksum_mode,
            ({
                let m = model_read::<P>(old(self).port@, old(self).checksum_mode, 0x40u8 | 0x07, 2);
                match m {
                    Txn::Done(v2, payload) => r == Ok::<u16, AdcError<P::Error>>(
                        crate::regs::id::spec_word(payload),
                    ) && final(self).port@ == v2,
                    Txn::Mismatch(v2, e, c) => r == Err::<u16, AdcError<P::Error>>(
                        AdcError::ChecksumMismatch(e, c),
                    ) && final(self).port@ == v2,
                    Txn::Failed(v2) => r is Err && (r matches Err(err) ==> err is SPI)
                        && final(self).port@ == v2,
                }
            }),
    {
        match self.read_reg(&crate::regs::Id) {
            Ok(data) => Ok(data.id()),
            Err(e) => Err(e),
        }
    }

    /// Read the status register: `Some(channel)` when a conversion is ready,
    /// `None` otherwise.
    pub fn data_ready(&mut self) -> (r: Result<Option<u8>, AdcError<P::Error>>)
        ensures
            final(self).checksum_mode == old(self).checksum_mode,
            ({
                let m = model_read::<P>(old(self).port@, old(self).checksum_mode, 0x40u8 | 0x00, 1);
                match m {
                    Txn::Done(v2, payload) => r == Ok::<Option<u8>, AdcError<P::Error>>(
                        if payload[0] & 0x80 == 0 {
                            Some(payload[0] & 0x03)
                        } else {
                            None
                        },
                    ) && final(self).port@ == v2,
                    Txn::Mismatch(v2, e, c) => r == Err::<Option<u8>, AdcError<P::Error>>(
                        AdcError::ChecksumMismatch(e, c),
                    ) && final(self).port@ == v2,
                    Txn::Failed(v2) => r is Err && (r matches Err(err) ==> err is SPI)
                        && final(self).port@ == v2,
                }
            }),
    {
        match self.read_reg(&crate::regs::Status) {
            Ok(status) => Ok(
                if status.ready() {
                    Some(status.channel())
                } else {
                    None
                },
            ),
            Err(e) => Err(e),
        }
    }

    /// Read the 24-bit conversion data register.
    pub fn read_data(&mut self) -> (r: Result<u32, AdcError<P::Error>>)
        ensures
            final(self).checksum_mode == old(self).checksum_mode,
            ({
                let m = model_read::<P>(old(self).port@, old(self).checksum_mode, 0x40u8 | 0x04, 3);
                match m {
                    Txn::Done(v2, payload) => r == Ok::<u32, AdcError<P::Error>>(
                        crate::regs::data::spec_word(payload),
                    ) && final(self).port@ == v2,
                    Txn::Mismatch(v2, e, c) => r == Err::<u32, AdcError<P::Error>>(
                        AdcError::ChecksumMismatch(e, c),
                    ) && final(self).port@ == v2,
                    Txn::Failed(v2) => r is Err && (r matches Err(err) ==> err is SPI)
                        && final(self).port@ == v2,
                }
            }),
    {
        match self.read_reg(&crate::regs::Data) {
            Ok(data) => Ok(data.data()),
            Err(e) => Err(e),
        }
    }

    /// Switch the checksum mode: read the interface-mode register under the
    /// old mode, rewrite its checksum-mode field, switch the locally tracked
    /// mode, then write the register back — so the write itself is already
    /// framed under the new mode. This ordering is load-bearing.
    pub fn set_checksum_mode(&mut self, mode: ChecksumMode) -> (r: Result<(), AdcError<P::Error>>)
        ensures
            ({
                let m1 = model_read::<P>(old(self).port@, old(self).checksum_mode, 0x40u8 | 0x02, 2);
                match m1 {
                    Txn::Done(v2, payload) => final(self).checksum_mode == mode && ({
                        let m2 = model_write::<P>(
                            v2,
                            mode,
                            0x02,
                            crate::regs::if_mode::spec_with_crc_bytes(payload, mode),
                        );
                        match m2 {
                            Txn::Done(v3, _) => r is Ok && final(self).port@ == v3,
                            Txn::Mismatch(_v3, _e, _c) => false,
                            Txn::Failed(v3) => r is Err && (r matches Err(err) ==> err is SPI)
                                && final(self).port@ == v3,
                        }
                    }),
                    Txn::Mismatch(v2, e, c) => r == Err::<(), AdcError<P::Error>>(
                        AdcError::ChecksumMismatch(e, c),
                    ) && final(self).port@ == v2 && final(self).checksum_mode == old(
                        self,
                    ).checksum_mode,
                    Txn::Failed(v2) => r is Err && (r matches Err(err) ==> err is SPI) && final(self).port@ == v2 && final(self).checksum_mode == old(self).checksum_mode,
                }
            }),
    {
        // update_reg would not do here: the tracked mode must change between
        // the read and the write.
        match self.read_reg(&crate::regs::IfMode) {
            Ok(mut ifmode) => {
                let ghost payload = ifmode.spec_bytes();
                ifmode.set_crc(mode);
                self.checksum_mode = mode;
                proof {
                    assert(ifmode.spec_bytes() == crate::regs::if_mode::spec_with_crc_bytes(
                        payload,
                        mode,
                    ));
                }
                match self.write_reg(&crate::regs::IfMode, &ifmode) {
                    Ok(()) => Ok(()),
                    Err(e) => Err(e),
                }
            },
            Err(e) => Err(e),
        }
    }

    /// Read the filter configuration of channel `index`: the post-filter
    /// rate when the enhanced filter is enabled, `None` otherwise.
    pub fn get_postfilter(&mut self, index: u8) -> (r: Result<
        Option<PostFilter>,
        AdcError<P::Error>,
    >)
        requires
            index <= crate::regs::MAX_CHANNEL_INDEX,
        ensures
            final(self).checksum_mode == old(self).checksum_mode,
            ({
                let m = model_read::<P>(
                    old(self).port@,
                    old(self).checksum_mode,
                    0x40 | (crate::regs::FILT_CON_BASE + index) as u8,
                    2,
                );
                match m {
                    Txn::Done(v2, payload) => r == Ok::<Option<PostFilter>, AdcError<P::Error>>(
                        crate::regs::filt_con::spec_postfilter_of(payload),
                    ) && final(self).port@ == v2,
                    Txn::Mismatch(v2, e, c) => r == Err::<Option<PostFilter>, AdcError<P::Error>>(
                        AdcError::ChecksumMismatch(e, c),
                    ) && final(self).port@ == v2,
                    Txn::Failed(v2) => r is Err && (r matches Err(err) ==> err is SPI)
                        && final(self).port@ == v2,
                }
            }),
    {
        match self.read_reg(&crate::regs::FiltCon { index }) {
            Ok(data) => Ok(
                if data.enh_filt_en() {
                    Some(data.enh_filt())
                } else {
                    None
                },
            ),
            Err(e) => Err(e),
        }
    }

    /// Rewrite the filter configuration of channel `index` to carry the
    /// given post-filter choice, by read-modify-write.
    pub fn set_postfilter(&mut self, index: u8, filter: Option<PostFilter>) -> (r: Result<
        (),
        AdcError<P::Error>,
    >)
        requires
            index <= crate::regs::MAX_CHANNEL_INDEX,
        ensures
            final(self).checksum_mode == old(self).checksum_mode,
            ({
                let m = model_rmw::<P>(
                    old(self).port@,
                    old(self).checksum_mode,
                    (crate::regs::FILT_CON_BASE + index) as u8,
                    2,
                    |b: Seq<u8>| crate::regs::filt_con::spec_with_postfilter(b, filter),
                );
                match m {
                    Txn::Done(v2, _) => r is Ok && final(self).port@ == v2,
                    Txn::Mismatch(v2, e, c) => r == Err::<(), AdcError<P::Error>>(
                        AdcError::ChecksumMismatch(e, c),
                    ) && final(self).port@ == v2,
                    Txn::Failed(v2) => r is Err && (r matches Err(err) ==> err is SPI)
                        && final(self).port@ == v2,
                }
            }),
    {
        match self.read_reg(&crate::regs::FiltCon { index }) {
            Ok(mut data) => {
                match filter {
                    None => data.set_enh_filt_en(false),
                    Some(f) => {
                        data.set_enh_filt_en(true);
                        data.set_enh_filt(f);
                    },
                }
                match self.write_reg(&crate::regs::FiltCon { index }, &data) {
                    Ok(()) => Ok(()),
                    Err(e) => Err(e),
                }
            },
            Err(e) => Err(e),
        }
    }

    /// Configure channel `index` end to end: a default setup configuration
    /// (unipolar, all buffers on, external reference), a default filter
    /// configuration (enhanced filter at 16.67 SPS, sinc5+sinc1 order), then
    /// the channel register enabled on the given input pair. Three separate
    /// transactions: a failure partway leaves the device partly configured.
    pub fn setup_channel(&mut self, index: u8, in_pos: Input, in_neg: Input) -> (r: Result<
        (),
        AdcError<P::Error>,
    >)
        requires
            index <= crate::regs::MAX_CHANNEL_INDEX,
        ensures
            final(self).checksum_mode == old(self).checksum_mode,
            ({
                let m1 = model_rmw::<P>(
                    old(self).port@,
                    old(self).checksum_mode,
                    (crate::regs::SETUP_CON_BASE + index) as u8,
                    2,
                    |b: Seq<u8>| setup_policy(b),
                );
                match m1 {
                    Txn::Done(v1, _) => ({
                        let m2 = model_rmw::<P>(
                            v1,
                            old(self).checksum_mode,
                            (crate::regs::FILT_CON_BASE + index) as u8,
                            2,
                            |b: Seq<u8>| filter_policy(b),
                        );
                        match m2 {
                            Txn::Done(v2, _) => ({
                                let m3 = model_rmw::<P>(
                                    v2,
                                    old(self).checksum_mode,
                                    (crate::regs::CHANNEL_BASE + index) as u8,
                                    2,
                                    |b: Seq<u8>| channel_policy(b, index, in_pos, in_neg),
                                );
                                match m3 {
                                    Txn::Done(v3, _) => r is Ok && final(self).port@ == v3,
                                    Txn::Mismatch(v3, e, c) => r == Err::<(), AdcError<P::Error>>(
                                        AdcError::ChecksumMismatch(e, c),
                                    ) && final(self).port@ == v3,
                                    Txn::Failed(v3) => r is Err && (r matches Err(err)
                                        ==> err is SPI) && final(self).port@ == v3,
                                }
                            }),
                            Txn::Mismatch(v2, e, c) => r == Err::<(), AdcError<P::Error>>(
                                AdcError::ChecksumMismatch(e, c),
                            ) && final(self).port@ == v2,
                            Txn::Failed(v2) => r is Err && (r matches Err(err) ==> err is SPI)
                                && final(self).port@ == v2,
                        }
                    }),
                    Txn::Mismatch(v1, e, c) => r == Err::<(), AdcError<P::Error>>(
                        AdcError::ChecksumMismatch(e, c),
                    ) && final(self).port@ == v1,
                    Txn::Failed(v1) => r is Err && (r matches Err(err) ==> err is SPI)
                        && final(self).port@ == v1,
                }
            }),
    {
        match self.read_reg(&crate::regs::SetupCon { index }) {
            Ok(mut setup) => {
                setup.set_bipolar(false);
                setup.set_refbuf_pos(true);
                setup.set_refbuf_neg(true);
                setup.set_ainbuf_pos(true);
                setup.set_ainbuf_neg(true);
                setup.set_ref_sel(RefSource::External);
                match self.write_reg(&crate::regs::SetupCon { index }, &setup) {
                    Ok(()) => (),
                    Err(e) => {
                        return Err(e);
                    },
                }
            },
            Err(e) => {
                return Err(e);
            },
        }
        match self.read_reg(&crate::regs::FiltCon { index }) {
            Ok(mut filt) => {
                filt.set_enh_filt_en(true);
                filt.set_enh_filt(PostFilter::F16SPS);
                filt.set_order(DigitalFilterOrder::Sinc5Sinc1);
                match self.write_reg(&crate::regs::FiltCon { index }, &filt) {
                    Ok(()) => (),
                    Err(e) => {
                        return Err(e);
                    },
                }
            },
            Err(e) => {
                return Err(e);
            },
        }
        match self.read_reg(&crate::regs::Channel { index }) {
            Ok(mut channel) => {
                channel.set_setup(index);
                channel.set_enabled(true);
                channel.set_a_in_pos(in_pos);
                channel.set_a_in_neg(in_neg);
                match self.write_reg(&crate::regs::Channel { index }, &channel) {
                    Ok(()) => Ok(()),
                    Err(e) => Err(e),
                }
            },
            Err(e) => Err(e),
        }
    }
}

/// The default setup configuration `setup_channel` writes: unipolar, all
/// reference and input buffers enabled, external reference.
pub open spec fn setup_policy(bytes: Seq<u8>) -> Seq<u8> {
    (crate::regs::setup_con::Data { hi: bytes[0], lo: bytes[1] }).spec_with_bipolar(
        false,
    ).spec_with_refbuf_pos(true).spec_with_refbuf_neg(true).spec_with_ainbuf_pos(
        true,
    ).spec_with_ainbuf_neg(true).spec_with_ref_sel(RefSource::External).spec_bytes()
}

/// The default filter configuration `setup_channel` writes: enhanced filter
/// on at 16.67 SPS, sinc5+sinc1 order.
pub open spec fn filter_policy(bytes: Seq<u8>) -> Seq<u8> {
    (crate::regs::filt_con::Data { hi: bytes[0], lo: bytes[1] }).spec_with_enh_filt_en(
        true,
    ).spec_with_enh_filt(PostFilter::F16SPS).spec_with_order(
        DigitalFilterOrder::Sinc5Sinc1,
    ).spec_bytes()
}

/// The channel configuration `setup_channel` writes: the channel enabled,
/// bound to setup `index`, on the given input pair.
pub open spec fn channel_policy(bytes: Seq<u8>, index: u8, in_pos: Input, in_neg: Input) -> Seq<
    u8,
> {
    (crate::regs::channel::Data { hi: bytes[0], lo: bytes[1] }).spec_with_setup(
        index,
    ).spec_with_enabled(true).spec_with_a_in_pos(in_pos).spec_with_a_in_neg(in_neg).spec_bytes()
}

/// Law: writes are checksummed with CRC whenever any checksum mode is
/// active. With the read-side mode XOR, the frame a write sends is exactly
/// the frame CRC mode would send, and its trailing byte is the CRC — not the
/// XOR — of the address byte and payload.
pub proof fn lemma_write_checksum_forced_to_crc(mode: ChecksumMode, addr: u8, bytes: Seq<u8>)
    requires
        !(mode is Off),
    ensures
        write_frame(mode, addr, bytes) == write_frame(ChecksumMode::Crc, addr, bytes),
        write_frame(mode, addr, bytes).last() == feed_bytes(
            ChecksumMode::Crc,
            feed_byte(ChecksumMode::Crc, 0, addr),
            bytes,
        ),
{
    let frame = write_frame(mode, addr, bytes);
    let cs = feed_bytes(ChecksumMode::Crc, feed_byte(ChecksumMode::Crc, 0, addr), bytes);
    assert(frame.len() == 2 + bytes.len());
    assert(frame.last() == seq![cs][0]);
}

} // verus!
