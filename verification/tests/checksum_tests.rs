use tecpak::checksum::Checksum;
use tecpak::checksum::ChecksumMode;

fn run(mode: ChecksumMode, bytes: &[u8]) -> Option<u8> {
    let mut checksum = Checksum::new(mode);
    for &b in bytes {
        checksum.feed(b);
    }
    checksum.result()
}

#[test]
fn crc_single_byte() {
    // CRC-8, polynomial 0x07, no initial or final XOR.
    assert_eq!(run(ChecksumMode::Crc, &[0x55]), Some(0xAC));
}

#[test]
fn crc_catalogue_check_value() {
    // The standard check input "123456789" gives 0xF4 for this CRC-8.
    let bytes = [0x31, 0x32, 0x33, 0x34, 0x35, 0x36, 0x37, 0x38, 0x39];
    assert_eq!(run(ChecksumMode::Crc, &bytes), Some(0xF4));
}

#[test]
fn crc_empty_is_zero() {
    assert_eq!(run(ChecksumMode::Crc, &[]), Some(0x00));
}

#[test]
fn xor_correctness() {
    assert_eq!(run(ChecksumMode::Xor, &[0x12, 0x34, 0x56]), Some(0x12 ^ 0x34 ^ 0x56));
    assert_eq!(run(ChecksumMode::Xor, &[0x12, 0x34, 0x56]), Some(0x70));
    assert_eq!(run(ChecksumMode::Xor, &[0xFF, 0xFF]), Some(0x00));
}

#[test]
fn off_emits_no_checksum() {
    assert_eq!(run(ChecksumMode::Off, &[]), None);
    assert_eq!(run(ChecksumMode::Off, &[0x55]), None);
    assert_eq!(run(ChecksumMode::Off, &[0x12, 0x34, 0x56, 0xFF, 0x00]), None);
}

#[test]
fn mode_codes() {
    assert_eq!(ChecksumMode::Off.code(), 0);
    assert_eq!(ChecksumMode::Xor.code(), 1);
    assert_eq!(ChecksumMode::Crc.code(), 2);
}
