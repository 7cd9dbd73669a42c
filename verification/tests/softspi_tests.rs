use tecpak::softspi::SoftSpi;
use tecpak::softspi::SpiError;
use tecpak::softspi::SpiState;

/// MISO levels for one byte: on each of the eight sample phases present the
/// corresponding bit of `byte`, MSB first. Each bit takes two ticks (setup
/// phase, then sample phase).
fn samples_for(byte: u8) -> Vec<bool> {
    let mut samples = Vec::new();
    for bit in 0..8 {
        let level = byte & (0x80 >> bit) != 0;
        samples.push(false); // ignored on the data-setup phase
        samples.push(level); // sampled on the clock-high phase
    }
    samples
}

#[test]
fn receives_byte_msb_first() {
    let mut spi = SoftSpi::new();
    assert!(spi.send(0x00).is_ok());
    for level in samples_for(0xA5) {
        spi.tick(level);
    }
    assert_eq!(spi.read(), Ok(0xA5));
}

#[test]
fn sixteen_ticks_per_byte() {
    let mut spi = SoftSpi::new();
    assert!(spi.send(0xFF).is_ok());
    let samples = samples_for(0x3C);
    for (i, level) in samples.iter().enumerate() {
        assert_eq!(spi.read(), Err(SpiError::WouldBlock), "byte published early at tick {}", i);
        spi.tick(*level);
    }
    assert_eq!(spi.read(), Ok(0x3C));
}

#[test]
fn run_collects_the_byte() {
    let mut spi = SoftSpi::new();
    assert!(spi.send(0x12).is_ok());
    let samples = samples_for(0x81);
    spi.run(&samples);
    assert_eq!(spi.read(), Ok(0x81));
}

#[test]
fn drives_mosi_msb_first() {
    let mut spi = SoftSpi::new();
    assert!(spi.sck, "clock idles high");
    assert!(spi.send(0xB4).is_ok());
    let mut driven = Vec::new();
    for _ in 0..8 {
        spi.tick(false); // data-setup phase drives MOSI, clock low
        assert!(!spi.sck);
        driven.push(spi.mosi);
        spi.tick(false); // sample phase raises the clock
        assert!(spi.sck);
    }
    let expected: Vec<bool> = (0..8).map(|bit| 0xB4u8 & (0x80 >> bit) != 0).collect();
    assert_eq!(driven, expected);
}

#[test]
fn send_while_busy_would_block() {
    let mut spi = SoftSpi::new();
    assert_eq!(spi.send(0x01), Ok(()));
    assert_eq!(spi.send(0x02), Err(SpiError::WouldBlock));
    // the in-flight transfer is untouched
    for level in samples_for(0x55) {
        spi.tick(level);
    }
    assert_eq!(spi.read(), Ok(0x55));
}

#[test]
fn read_when_idle_and_empty_is_exhausted() {
    let mut spi = SoftSpi::new();
    assert_eq!(spi.read(), Err(SpiError::Exhausted));
}

#[test]
fn read_consumes_the_byte_once() {
    let mut spi = SoftSpi::new();
    assert!(spi.send(0x00).is_ok());
    for level in samples_for(0x7E) {
        spi.tick(level);
    }
    assert_eq!(spi.read(), Ok(0x7E));
    assert_eq!(spi.read(), Err(SpiError::Exhausted));
}

#[test]
fn idle_tick_changes_nothing() {
    let mut spi = SoftSpi::new();
    spi.tick(true);
    spi.tick(false);
    assert!(matches!(spi.state, SpiState::Idle));
    assert!(spi.sck);
    assert_eq!(spi.read(), Err(SpiError::Exhausted));
}
