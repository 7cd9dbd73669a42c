use tecpak::checksum::ChecksumMode;
use tecpak::fields::DigitalFilterOrder;
use tecpak::fields::Input;
use tecpak::fields::PostFilter;
use tecpak::fields::RefSource;
use tecpak::regs::channel;
use tecpak::regs::data;
use tecpak::regs::filt_con;
use tecpak::regs::id;
use tecpak::regs::if_mode;
use tecpak::regs::setup_con;
use tecpak::regs::status;
use tecpak::regs::Channel;
use tecpak::regs::Data;
use tecpak::regs::FiltCon;
use tecpak::regs::Id;
use tecpak::regs::IfMode;
use tecpak::regs::Register;
use tecpak::regs::RegisterData;
use tecpak::regs::SetupCon;
use tecpak::regs::Status;

#[test]
fn fixed_addresses() {
    assert_eq!(Status.address(), 0x00);
    assert_eq!(IfMode.address(), 0x02);
    assert_eq!(Data.address(), 0x04);
    assert_eq!(Id.address(), 0x07);
}

#[test]
fn channel_indexed_addresses() {
    assert_eq!(Channel { index: 0 }.address(), 0x10);
    assert_eq!(Channel { index: 3 }.address(), 0x13);
    assert_eq!(SetupCon { index: 2 }.address(), 0x22);
    // this device revision places the filter registers at base 0x80
    assert_eq!(FiltCon { index: 3 }.address(), 0x83);
    assert_eq!(FiltCon { index: 0 }.address(), 0x80);
}

#[test]
fn status_flags_decode() {
    let ready = status::Data { bits: 0x00 };
    assert!(ready.ready());
    assert_eq!(ready.channel(), 0);
    assert!(!ready.adc_error());
    assert!(!ready.crc_error());
    assert!(!ready.reg_error());

    // bit 7 set means "not ready"; bits 0-1 carry the channel
    let busy = status::Data { bits: 0xF2 };
    assert!(!busy.ready());
    assert_eq!(busy.channel(), 2);
    assert!(busy.adc_error());
    assert!(busy.crc_error());
    assert!(busy.reg_error());
}

#[test]
fn if_mode_crc_field_roundtrip() {
    let mut d = if_mode::Data { hi: 0xAB, lo: 0xF3 };
    d.set_crc(ChecksumMode::Crc);
    assert_eq!(d.crc_code(), 2);
    assert_eq!(d.hi, 0xAB);
    assert_eq!(d.lo, 0xF3 | (2 << 2));
    d.set_crc(ChecksumMode::Xor);
    assert_eq!(d.crc_code(), 1);
    d.set_crc(ChecksumMode::Off);
    assert_eq!(d.crc_code(), 0);
    assert_eq!(d.lo, 0xF3);
}

#[test]
fn data_is_24_bit_big_endian() {
    let d = data::Data { hi: 0xAB, mid: 0xCD, lo: 0xEF };
    assert_eq!(d.data(), 0x00AB_CDEF);
    let zero = data::Data { hi: 0, mid: 0, lo: 0 };
    assert_eq!(zero.data(), 0);
}

#[test]
fn id_is_16_bit_big_endian() {
    let d = id::Data { hi: 0x00, lo: 0xD0 };
    assert_eq!(d.id(), 0x00D0);
    let d = id::Data { hi: 0x12, lo: 0x34 };
    assert_eq!(d.id(), 0x1234);
}

#[test]
fn channel_fields_roundtrip() {
    let mut d = channel::Data { hi: 0xFF, lo: 0xFF };
    d.set_enabled(false);
    d.set_setup(5);
    d.set_a_in_pos(Input::TemperaturePos);
    d.set_a_in_neg(Input::TemperatureNeg);
    assert!(!d.enabled());
    assert_eq!(d.setup(), 5);
    assert_eq!(d.a_in_pos(), Input::TemperaturePos);
    assert_eq!(d.a_in_neg(), Input::TemperatureNeg);
    d.set_enabled(true);
    assert!(d.enabled());
    // the other fields are untouched
    assert_eq!(d.setup(), 5);
    assert_eq!(d.a_in_pos(), Input::TemperaturePos);
    assert_eq!(d.a_in_neg(), Input::TemperatureNeg);
}

#[test]
fn setup_con_fields_roundtrip() {
    let mut d = setup_con::Data { hi: 0x00, lo: 0x00 };
    d.set_bipolar(true);
    d.set_refbuf_pos(true);
    d.set_refbuf_neg(false);
    d.set_ainbuf_pos(true);
    d.set_ainbuf_neg(false);
    d.set_ref_sel(RefSource::Internal);
    assert!(d.bipolar());
    assert!(d.refbuf_pos());
    assert!(!d.refbuf_neg());
    assert!(d.ainbuf_pos());
    assert!(!d.ainbuf_neg());
    assert_eq!(d.ref_sel(), RefSource::Internal);
}

#[test]
fn filt_con_fields_roundtrip() {
    let mut d = filt_con::Data { hi: 0xFF, lo: 0xFF };
    d.set_enh_filt_en(true);
    d.set_enh_filt(PostFilter::F16SPS);
    d.set_order(DigitalFilterOrder::Sinc5Sinc1);
    assert!(d.enh_filt_en());
    assert_eq!(d.enh_filt(), PostFilter::F16SPS);
    assert_eq!(d.order(), DigitalFilterOrder::Sinc5Sinc1);
    d.set_enh_filt_en(false);
    assert!(!d.enh_filt_en());
    assert_eq!(d.enh_filt(), PostFilter::F16SPS);
}

#[test]
fn input_codes_roundtrip() {
    let inputs = [
        Input::Ain0,
        Input::Ain1,
        Input::Ain2,
        Input::Ain3,
        Input::Ain4,
        Input::TemperaturePos,
        Input::TemperatureNeg,
        Input::AnalogSupplyPos,
        Input::AnalogSupplyNeg,
        Input::RefPos,
        Input::RefNeg,
        Input::Invalid,
    ];
    for input in inputs {
        assert_eq!(Input::from_code(input.code()), input);
    }
    assert_eq!(Input::from_code(9), Input::Invalid);
}

#[test]
fn post_filter_codes_roundtrip() {
    let filters = [
        PostFilter::F27SPS,
        PostFilter::F21SPS,
        PostFilter::F20SPS,
        PostFilter::F16SPS,
        PostFilter::Invalid,
    ];
    for filter in filters {
        assert_eq!(PostFilter::from_code(filter.code()), filter);
    }
    assert_eq!(PostFilter::from_code(0), PostFilter::Invalid);
}

#[test]
fn payload_bytes_roundtrip() {
    let bytes = vec![0xAB, 0xCD];
    let d = channel::Data::from_bytes(&bytes);
    assert_eq!(d.to_bytes(), bytes);
    let bytes = vec![0x12, 0x34, 0x56];
    let d = data::Data::from_bytes(&bytes);
    assert_eq!(d.to_bytes(), bytes);
    let empty = status::Data::empty();
    assert_eq!(empty.to_bytes(), vec![0x00]);
    assert_eq!(status::Data::size(), 1);
    assert_eq!(id::Data::size(), 2);
    assert_eq!(data::Data::size(), 3);
}
