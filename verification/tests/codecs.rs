use lis331::codec::{DataRate, Range, FS_MASK, LP_EN, ODR_MASK, X_EN, Y_EN, Z_EN};
use lis331::status::{DataStatus, XDA, XOR, YDA, YOR, ZDA, ZOR, ZYXDA, ZYXOR};
use lis331::Error;

#[test]
fn range_bits() {
    assert_eq!(Range::G24.bits(), 0b11);
    assert_eq!(Range::G12.bits(), 0b01);
    assert_eq!(Range::G6.bits(), 0b00);
}

#[test]
fn range_scale_in_mg() {
    assert_eq!(Range::G24.as_mg(), 192);
    assert_eq!(Range::G12.as_mg(), 96);
    assert_eq!(Range::G6.as_mg(), 48);
}

#[test]
fn range_default_is_6g() {
    assert_eq!(Range::default(), Range::G6);
}

#[test]
fn range_bits_round_trip() {
    for range in [Range::G6, Range::G12, Range::G24] {
        assert_eq!(Range::try_from_bits(range.bits()), Ok(range));
    }
}

#[test]
fn range_reserved_bits_rejected() {
    assert_eq!(Range::try_from_bits(0b10), Err(Error::UnknownBits));
    assert_eq!(Range::try_from_bits(0xFF), Err(Error::UnknownBits));
}

#[test]
fn data_rate_bits() {
    assert_eq!(DataRate::Hz_1000.bits(), 0b00111);
    assert_eq!(DataRate::Hz_400.bits(), 0b00110);
    assert_eq!(DataRate::Hz_100.bits(), 0b00101);
    assert_eq!(DataRate::Hz_50.bits(), 0b00100);
    assert_eq!(DataRate::Hz_10.bits(), 0b11000);
    assert_eq!(DataRate::Hz_5.bits(), 0b10100);
    assert_eq!(DataRate::Hz_2.bits(), 0b10000);
    assert_eq!(DataRate::Hz_1.bits(), 0b01100);
    assert_eq!(DataRate::Hz_05.bits(), 0b01000);
    assert_eq!(DataRate::PowerDown.bits(), 0b00000);
}

#[test]
fn data_rate_sample_rates() {
    assert_eq!(DataRate::Hz_1000.sample_rate_milli_hz(), 1_000_000);
    assert_eq!(DataRate::Hz_400.sample_rate_milli_hz(), 400_000);
    assert_eq!(DataRate::Hz_100.sample_rate_milli_hz(), 100_000);
    assert_eq!(DataRate::Hz_50.sample_rate_milli_hz(), 50_000);
    assert_eq!(DataRate::Hz_10.sample_rate_milli_hz(), 10_000);
    assert_eq!(DataRate::Hz_5.sample_rate_milli_hz(), 5_000);
    assert_eq!(DataRate::Hz_2.sample_rate_milli_hz(), 2_000);
    assert_eq!(DataRate::Hz_1.sample_rate_milli_hz(), 1_000);
    assert_eq!(DataRate::Hz_05.sample_rate_milli_hz(), 500);
    assert_eq!(DataRate::PowerDown.sample_rate_milli_hz(), 0);
}

#[test]
fn data_rate_bits_round_trip() {
    let rates = [
        DataRate::Hz_1000,
        DataRate::Hz_400,
        DataRate::Hz_100,
        DataRate::Hz_50,
        DataRate::Hz_10,
        DataRate::Hz_5,
        DataRate::Hz_2,
        DataRate::Hz_1,
        DataRate::Hz_05,
        DataRate::PowerDown,
    ];
    for rate in rates {
        assert_eq!(DataRate::try_from_bits(rate.bits()), Ok(rate));
    }
}

#[test]
fn data_rate_reserved_bits_rejected() {
    assert_eq!(DataRate::try_from_bits(0b11111), Err(Error::UnknownBits));
    assert_eq!(DataRate::try_from_bits(0b00001), Err(Error::UnknownBits));
}

#[test]
fn control_masks() {
    assert_eq!(ODR_MASK, 0b1111_0000);
    assert_eq!(LP_EN | Z_EN | Y_EN | X_EN, 0b0000_1111);
    assert_eq!(FS_MASK, 0b0011_0000);
}

#[test]
fn decode_all_flags_set() {
    let status = DataStatus::decode(0xFF);
    assert!(status.zyxor);
    assert_eq!(status.xyzor, (true, true, true));
    assert!(status.zyxda);
    assert_eq!(status.xyzda, (true, true, true));
}

#[test]
fn decode_no_flags_set() {
    let status = DataStatus::decode(0x00);
    assert!(!status.zyxor);
    assert_eq!(status.xyzor, (false, false, false));
    assert!(!status.zyxda);
    assert_eq!(status.xyzda, (false, false, false));
}

#[test]
fn decode_zyxda_alone() {
    let status = DataStatus::decode(ZYXDA);
    assert!(!status.zyxor);
    assert_eq!(status.xyzor, (false, false, false));
    assert!(status.zyxda);
    assert_eq!(status.xyzda, (false, false, false));
}

#[test]
fn decode_each_flag_bit() {
    assert!(DataStatus::decode(ZYXOR).zyxor);
    assert_eq!(DataStatus::decode(XOR).xyzor, (true, false, false));
    assert_eq!(DataStatus::decode(YOR).xyzor, (false, true, false));
    assert_eq!(DataStatus::decode(ZOR).xyzor, (false, false, true));
    assert!(DataStatus::decode(ZYXDA).zyxda);
    assert_eq!(DataStatus::decode(XDA).xyzda, (true, false, false));
    assert_eq!(DataStatus::decode(YDA).xyzda, (false, true, false));
    assert_eq!(DataStatus::decode(ZDA).xyzda, (false, false, true));
}
