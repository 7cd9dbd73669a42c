use tecpak::adc::Adc;
use tecpak::adc::AdcError;
use tecpak::checksum::ChecksumMode;
use tecpak::fields::Input;
use tecpak::fields::PostFilter;
use tecpak::port::ScriptedPort;
use tecpak::regs::Status;
use tecpak::softspi::SyncSoftSpi;

/// An orchestrator over a scripted port, without the reset that `new`
/// performs, so scripts cover only the transactions under test.
fn adc_over(script: Vec<u8>, mode: ChecksumMode) -> Adc<ScriptedPort> {
    Adc { port: ScriptedPort::new(script), checksum_mode: mode }
}

fn is_family(id: u16) -> bool {
    id & 0xFFF0 == 0x00D0
}

#[test]
fn new_resets_with_eight_ff_bytes() {
    let adc = Adc::new(ScriptedPort::new(vec![0u8; 8])).unwrap();
    assert_eq!(adc.port.sent, vec![0xFF; 8]);
    assert_eq!(adc.port.cursor, 8);
    assert!(matches!(adc.checksum_mode, ChecksumMode::Off));
}

#[test]
fn new_fails_when_the_port_fails() {
    // the script is too short for the reset pattern
    assert!(Adc::new(ScriptedPort::new(vec![0u8; 3])).is_err());
}

#[test]
fn identify_valid_fixture() {
    // read of the id register with checksum off: one byte clocked for the
    // address, two for the payload
    let mut adc = adc_over(vec![0x00, 0x00, 0xD0], ChecksumMode::Off);
    let id = adc.identify().unwrap();
    assert_eq!(id, 0x00D0);
    assert!(is_family(id));
    assert!((0x00D0..=0x00DF).contains(&id));
    // the address byte carries the read bit
    assert_eq!(adc.port.sent, vec![0x40 | 0x07, 0x00, 0x00]);
}

#[test]
fn identify_corrupt_fixture() {
    let mut adc = adc_over(vec![0x00, 0x12, 0x34], ChecksumMode::Off);
    let id = adc.identify().unwrap();
    assert_eq!(id, 0x1234);
    // an out-of-family id is a corrupt read, distinct from a transport error
    assert!(!is_family(id));
}

#[test]
fn read_with_matching_crc_succeeds() {
    // read Status under CRC: frame [0x40, 0x00, crc(0x40)=0xC7]; the device
    // answers payload 0x00 and crc([0x40, 0x00]) = 0x5B
    let mut adc = adc_over(vec![0x00, 0x00, 0x5B], ChecksumMode::Crc);
    let status = adc.read_reg(&Status).unwrap();
    assert_eq!(status.bits, 0x00);
    assert_eq!(adc.port.sent, vec![0x40, 0x00, 0xC7]);
}

#[test]
fn checksum_mismatch_is_detected() {
    // same transaction, but one payload byte corrupted to 0x12 while the
    // device's checksum byte still covers the uncorrupted payload: the
    // expected value is the checksum of [0x40, 0x12] = 0x25, the received
    // one is 0x5B
    let mut adc = adc_over(vec![0x00, 0x12, 0x5B], ChecksumMode::Crc);
    let r = adc.read_reg(&Status);
    assert_eq!(r.unwrap_err(), AdcError::ChecksumMismatch(Some(0x25), Some(0x5B)));
}

#[test]
fn xor_read_checksum() {
    // read Status under XOR: frame [0x40, 0x00, xor(0x40)=0x40]; the device
    // answers payload 0x81 and xor(0x40, 0x81) = 0xC1
    let mut adc = adc_over(vec![0x00, 0x81, 0xC1], ChecksumMode::Xor);
    let status = adc.read_reg(&Status).unwrap();
    assert_eq!(status.bits, 0x81);
    assert_eq!(adc.port.sent, vec![0x40, 0x00, 0x40]);
}

#[test]
fn write_checksum_forced_to_crc() {
    // write IfMode payload [0x00, 0x04] with the read-side mode XOR: the
    // trailing byte must be crc([0x02, 0x00, 0x04]) = 0xCA, not the XOR of
    // the same bytes (0x06)
    let mut adc = adc_over(vec![0x00; 4], ChecksumMode::Xor);
    let payload = tecpak::regs::if_mode::Data { hi: 0x00, lo: 0x04 };
    adc.write_reg(&tecpak::regs::IfMode, &payload).unwrap();
    let crc = 0xCA;
    let xor = 0x02 ^ 0x00 ^ 0x04;
    assert_ne!(crc, xor);
    assert_eq!(adc.port.sent, vec![0x02, 0x00, 0x04, crc]);
    assert_eq!(*adc.port.sent.last().unwrap(), crc);
}

#[test]
fn write_with_mode_off_has_no_checksum() {
    let mut adc = adc_over(vec![0x00; 3], ChecksumMode::Off);
    let payload = tecpak::regs::if_mode::Data { hi: 0xAA, lo: 0x55 };
    adc.write_reg(&tecpak::regs::IfMode, &payload).unwrap();
    assert_eq!(adc.port.sent, vec![0x02, 0xAA, 0x55]);
}

#[test]
fn set_checksum_mode_frames_the_write_under_the_new_mode() {
    // from Off: the read of IfMode is unchecksummed (3 bytes), the write is
    // already under CRC (4 bytes, trailing crc([0x02, 0x00, 0x08]) = 0xEE)
    let mut adc = adc_over(vec![0x00; 7], ChecksumMode::Off);
    adc.set_checksum_mode(ChecksumMode::Crc).unwrap();
    assert!(matches!(adc.checksum_mode, ChecksumMode::Crc));
    assert_eq!(adc.port.sent, vec![0x42, 0x00, 0x00, 0x02, 0x00, 0x08, 0xEE]);
}

#[test]
fn set_checksum_mode_failure_keeps_old_mode_on_read_failure() {
    // script too short even for the read
    let mut adc = adc_over(vec![0x00; 2], ChecksumMode::Off);
    assert!(adc.set_checksum_mode(ChecksumMode::Crc).is_err());
    assert!(matches!(adc.checksum_mode, ChecksumMode::Off));
}

#[test]
fn data_ready_reports_the_channel() {
    // bit 7 clear: ready, channel 1
    let mut adc = adc_over(vec![0x00, 0x01], ChecksumMode::Off);
    assert_eq!(adc.data_ready().unwrap(), Some(1));
    // bit 7 set: not ready
    let mut adc = adc_over(vec![0x00, 0x80], ChecksumMode::Off);
    assert_eq!(adc.data_ready().unwrap(), None);
}

#[test]
fn read_data_is_24_bit_big_endian() {
    let mut adc = adc_over(vec![0x00, 0xAB, 0xCD, 0xEF], ChecksumMode::Off);
    assert_eq!(adc.read_data().unwrap(), 0x00AB_CDEF);
    assert_eq!(adc.port.sent, vec![0x44, 0x00, 0x00, 0x00]);
}

#[test]
fn setup_channel_writes_the_three_registers() {
    // three read-modify-writes with checksum off: each read clocks 3 bytes,
    // each write clocks 3; the device answers zeroes throughout
    let mut adc = adc_over(vec![0x00; 18], ChecksumMode::Off);
    adc.setup_channel(1, Input::Ain2, Input::Ain3).unwrap();
    let sent = adc.port.sent.clone();
    // setup configuration: unipolar, all buffers on, external reference
    assert_eq!(&sent[0..3], &[0x61, 0x00, 0x00]); // read SetupCon1
    assert_eq!(&sent[3..6], &[0x21, 0x0F, 0x00]); // write it back
    // filter configuration: enhanced filter on, 16.67 SPS, sinc5+sinc1
    assert_eq!(&sent[6..9], &[0xC1, 0x00, 0x00]); // read FiltCon1
    assert_eq!(&sent[9..12], &[0x81, 0x0E, 0x00]); // write it back
    // channel: enabled, setup 1, inputs 2 and 3
    assert_eq!(&sent[12..15], &[0x51, 0x00, 0x00]); // read Channel1
    let hi: u8 = 0x80 | (1 << 4) | (2 >> 3);
    let lo: u8 = ((2 & 0x07) << 5) | 3;
    assert_eq!(&sent[15..18], &[0x11, hi, lo]); // write it back
}

#[test]
fn get_and_set_postfilter() {
    // enhanced filter enabled at code 6 (16.67 SPS): high byte 0x0E
    let mut adc = adc_over(vec![0x00, 0x0E, 0x00], ChecksumMode::Off);
    assert_eq!(adc.get_postfilter(0).unwrap(), Some(PostFilter::F16SPS));
    // enhanced filter disabled
    let mut adc = adc_over(vec![0x00, 0x06, 0x00], ChecksumMode::Off);
    assert_eq!(adc.get_postfilter(0).unwrap(), None);
    // switch it off by read-modify-write
    let mut adc = adc_over(vec![0x00, 0x0E, 0x40, 0x00, 0x00, 0x00], ChecksumMode::Off);
    adc.set_postfilter(0, None).unwrap();
    assert_eq!(adc.port.sent, vec![0xC0, 0x00, 0x00, 0x80, 0x06, 0x40]);
}

#[test]
fn update_reg_reads_then_writes() {
    let mut adc = adc_over(vec![0x00, 0x12, 0x34, 0x00, 0x00, 0x00], ChecksumMode::Off);
    adc.update_reg(&tecpak::regs::IfMode, |mut d: tecpak::regs::if_mode::Data| {
        d.set_crc(ChecksumMode::Xor);
        d
    })
    .unwrap();
    assert_eq!(adc.port.sent, vec![0x42, 0x00, 0x00, 0x02, 0x12, 0x34 | 0x04]);
}

#[test]
fn reset_ignores_the_checksum_mode() {
    let mut adc = adc_over(vec![0x00; 8], ChecksumMode::Crc);
    adc.reset().unwrap();
    assert_eq!(adc.port.sent, vec![0xFF; 8]);
}

#[test]
fn end_to_end_scenario() {
    let mut script: Vec<u8> = Vec::new();
    script.extend_from_slice(&[0x00; 8]); // reset replies, ignored
    script.extend_from_slice(&[0x00, 0x00, 0xD3]); // id read, checksum off
    script.extend_from_slice(&[0x00, 0x00, 0x00]); // IfMode read, checksum off
    script.extend_from_slice(&[0x00; 4]); // IfMode write replies, ignored
    // id read again, now checksummed: crc([0x47, 0x00, 0xD3]) = 0xA7
    script.extend_from_slice(&[0x00, 0x00, 0xD3, 0xA7]);
    // status: ready on channel 1, crc([0x40, 0x01]) = 0x5C
    script.extend_from_slice(&[0x00, 0x01, 0x5C]);
    // conversion data 0x0186A0, crc([0x44, 0x01, 0x86, 0xA0]) = 0x09
    script.extend_from_slice(&[0x00, 0x01, 0x86, 0xA0, 0x09]);

    let mut adc = Adc::new(ScriptedPort::new(script)).unwrap();
    let id = adc.identify().unwrap();
    assert!((0x00D0..=0x00DF).contains(&id));
    adc.set_checksum_mode(ChecksumMode::Crc).unwrap();
    // the read request itself now carries crc([0x47]) = 0xD2
    let id = adc.identify().unwrap();
    assert_eq!(id, 0x00D3);
    assert_eq!(adc.data_ready().unwrap(), Some(1));
    assert_eq!(adc.read_data().unwrap(), 100_000);
    // every scripted byte was consumed, exactly in step with the frames
    assert_eq!(adc.port.cursor, adc.port.script.len());
    let n = adc.port.sent.len();
    // the data read went out as [0x44, 0x00, 0x00, 0x00, crc([0x44]) = 0xDB]
    assert_eq!(&adc.port.sent[n - 5..], &[0x44, 0x00, 0x00, 0x00, 0xDB]);
    // and the checksummed id request before it ended with crc([0x47]) = 0xD2
    assert_eq!(&adc.port.sent[n - 12..n - 8], &[0x47, 0x00, 0x00, 0xD2]);
}

/// MISO levels for a sequence of device reply bytes: sixteen ticks a byte,
/// the reply bit presented on each sample (odd) phase, MSB first.
fn levels_for(replies: &[u8]) -> Vec<bool> {
    let mut levels = Vec::new();
    for &b in replies {
        for bit in 0..8 {
            levels.push(false);
            levels.push(b & (0x80 >> bit) != 0);
        }
    }
    levels
}

#[test]
fn identify_through_the_bit_bang_engine() {
    // the whole stack: the orchestrator frames an id read, the synchronous
    // wrapper shifts it bit by bit through the engine, and the scripted MISO
    // levels spell the device's reply
    let levels = levels_for(&[0x00, 0x00, 0xD0]);
    let port = SyncSoftSpi::new(levels);
    let mut adc = Adc { port, checksum_mode: ChecksumMode::Off };
    assert_eq!(adc.identify().unwrap(), 0x00D0);
    // three bytes of sixteen ticks each consumed every scripted level
    assert_eq!(adc.port.taken, 48);
}

#[test]
fn checksummed_read_through_the_bit_bang_engine() {
    // read Status under CRC: the device answers payload 0x00 and the
    // checksum of [0x40, 0x00] = 0x5B; the mismatch path uses a wrong byte
    let levels = levels_for(&[0x00, 0x00, 0x5B]);
    let mut adc = Adc { port: SyncSoftSpi::new(levels), checksum_mode: ChecksumMode::Crc };
    assert_eq!(adc.read_reg(&Status).unwrap().bits, 0x00);

    let levels = levels_for(&[0x00, 0x12, 0x5B]);
    let mut adc = Adc { port: SyncSoftSpi::new(levels), checksum_mode: ChecksumMode::Crc };
    assert_eq!(
        adc.read_reg(&Status).unwrap_err(),
        AdcError::ChecksumMismatch(Some(0x25), Some(0x5B))
    );
}

#[test]
fn engine_port_fails_fast_when_starved() {
    // only one byte of levels scripted, but the id read needs three
    let levels = levels_for(&[0x00]);
    let mut adc = Adc { port: SyncSoftSpi::new(levels), checksum_mode: ChecksumMode::Off };
    assert!(matches!(adc.identify(), Err(AdcError::SPI(_))));
    // nothing was consumed: the failed transfer left the port alone
    assert_eq!(adc.port.taken, 0);
}

#[test]
fn transport_failure_is_reported_as_spi_error() {
    // nothing scripted at all: the transfer fails outright
    let mut adc = adc_over(Vec::new(), ChecksumMode::Off);
    assert!(matches!(adc.identify(), Err(AdcError::SPI(_))));
}
