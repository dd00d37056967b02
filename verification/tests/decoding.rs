use fixed::{types::extra::U10, FixedI32};
use ltc2983::{
    config_type_field_nonzero, decode_signed_q21_10, reformat_fixedf24_to_fixed_f32,
    LTC2983Result, LTC2983Status,
};

#[test]
fn test_fixedf24_u10_to_f32_signed() {
    let bytes: [u8; 3] = [0x7f, 0xff, 0xff];
    let value = FixedI32::<U10>::from_be_bytes(reformat_fixedf24_to_fixed_f32(&bytes));
    assert!(value.to_num::<f32>() - (8191.999 as f32) < 1. / 1024.); // error should be smaller than smallest fixed point value 1./1024.

    let bytes: [u8; 3] = [0x10, 0x00, 0x00];
    let value = FixedI32::<U10>::from_be_bytes(reformat_fixedf24_to_fixed_f32(&bytes));
    assert!(value.to_num::<f32>() - (1024 as f32) < 1. / 1024.);

    let bytes: [u8; 3] = [0x00, 0x04, 0x00];
    let value = FixedI32::<U10>::from_be_bytes(reformat_fixedf24_to_fixed_f32(&bytes));
    assert!(value.to_num::<f32>() - (1 as f32) < 1. / 1024.);

    let bytes: [u8; 3] = [0x00, 0x00, 0x01];
    let value = FixedI32::<U10>::from_be_bytes(reformat_fixedf24_to_fixed_f32(&bytes));
    assert!(value.to_num::<f32>() - (1. / 1024. as f32) < 1. / 1024.);

    let bytes: [u8; 3] = [0x00, 0x00, 0x00];
    let value = FixedI32::<U10>::from_be_bytes(reformat_fixedf24_to_fixed_f32(&bytes));
    assert!(value.to_num::<f32>() - (0. as f32) < 1. / 1024.);

    let bytes: [u8; 3] = [0xff, 0xff, 0xff];
    let value = FixedI32::<U10>::from_be_bytes(reformat_fixedf24_to_fixed_f32(&bytes));
    assert!(value.to_num::<f32>() - (-1. / 1024. as f32) < 1. / 1024.);

    let bytes: [u8; 3] = [0xff, 0xfc, 0x00];
    let value = FixedI32::<U10>::from_be_bytes(reformat_fixedf24_to_fixed_f32(&bytes));
    assert!(value.to_num::<f32>() - (-1 as f32) < 1. / 1024.);

    let bytes: [u8; 3] = [0xfb, 0xbb, 0x67];
    let value = FixedI32::<U10>::from_be_bytes(reformat_fixedf24_to_fixed_f32(&bytes));
    assert!(value.to_num::<f32>() - (-273.15 as f32) < 1. / 1024.);

    let bytes: [u8; 3] = [0xf8, 0xd1, 0x52];
    let value = FixedI32::<U10>::from_be_bytes(reformat_fixedf24_to_fixed_f32(&bytes));
    assert!(value.to_num::<f32>() - (-459.67 as f32) < 1. / 1027.);
}

#[test]
fn decode_round_trip_exact_raw_values() {
    // the raw Q21.10 value is the temperature times 1024
    assert_eq!(decode_signed_q21_10(&[0x7f, 0xff, 0xff]), 8388607); // ~8191.999
    assert_eq!(decode_signed_q21_10(&[0x10, 0x00, 0x00]), 1048576); // 1024.0
    assert_eq!(decode_signed_q21_10(&[0x00, 0x04, 0x00]), 1024); // 1.0
    assert_eq!(decode_signed_q21_10(&[0x00, 0x00, 0x01]), 1); // 1/1024
    assert_eq!(decode_signed_q21_10(&[0x00, 0x00, 0x00]), 0); // 0.0
    assert_eq!(decode_signed_q21_10(&[0xff, 0xff, 0xff]), -1); // -1/1024
    assert_eq!(decode_signed_q21_10(&[0xff, 0xfc, 0x00]), -1024); // -1.0
    assert_eq!(decode_signed_q21_10(&[0xfb, 0xbb, 0x67]), -279705); // ~-273.15
    assert_eq!(decode_signed_q21_10(&[0xf8, 0xd1, 0x52]), -470702); // ~-459.67
}

#[test]
fn decode_round_trip_f32_within_one_ulp() {
    let cases: [([u8; 3], f32); 9] = [
        ([0x7f, 0xff, 0xff], 8191.999),
        ([0x10, 0x00, 0x00], 1024.0),
        ([0x00, 0x04, 0x00], 1.0),
        ([0x00, 0x00, 0x01], 1.0 / 1024.0),
        ([0x00, 0x00, 0x00], 0.0),
        ([0xff, 0xff, 0xff], -1.0 / 1024.0),
        ([0xff, 0xfc, 0x00], -1.0),
        ([0xfb, 0xbb, 0x67], -273.15),
        ([0xf8, 0xd1, 0x52], -459.67),
    ];
    for (bytes, expected) in cases.iter() {
        let raw = decode_signed_q21_10(bytes);
        let value = FixedI32::<U10>::from_bits(raw).to_num::<f32>();
        assert!((value - expected).abs() <= 1.0 / 1024.0, "bytes {bytes:?}");
    }
}

#[test]
fn reformat_replicates_the_sign_bit() {
    assert_eq!(reformat_fixedf24_to_fixed_f32(&[0x80, 0x00, 0x01]), [0xff, 0x80, 0x00, 0x01]);
    assert_eq!(reformat_fixedf24_to_fixed_f32(&[0x7f, 0xaa, 0xbb]), [0x00, 0x7f, 0xaa, 0xbb]);
}

#[test]
fn classification_error_byte_one_is_valid() {
    assert_eq!(LTC2983Result::from([0x01, 0x00, 0x04, 0x00]), LTC2983Result::Valid(1024));
    assert_eq!(LTC2983Result::from([0x01, 0xff, 0xfc, 0x00]), LTC2983Result::Valid(-1024));
}

#[test]
fn classification_error_bits_one_to_three_are_invalid() {
    // any of bits 1-3 set invalidates the reading whatever the magnitude
    for err in [0x02u8, 0x04, 0x08, 0x0e, 0x06, 0xfe, 0x0a] {
        assert_eq!(
            LTC2983Result::from([err, 0x00, 0x04, 0x00]),
            LTC2983Result::Invalid(err),
            "error byte {err:#x}"
        );
    }
}

#[test]
fn classification_other_bytes_are_suspect_with_magnitude() {
    for err in [0x00u8, 0x10, 0x30, 0x51, 0x81, 0xf1] {
        assert_eq!(
            LTC2983Result::from([err, 0x00, 0x04, 0x00]),
            LTC2983Result::Suspect(1024, err),
            "error byte {err:#x}"
        );
    }
    assert_eq!(LTC2983Result::from([0x00, 0xfb, 0xbb, 0x67]), LTC2983Result::Suspect(-279705, 0x00));
}

#[test]
fn status_byte_decodes_start_done_and_selection() {
    let st = LTC2983Status::from(0xC5);
    assert!(st.done());
    let st = LTC2983Status::from(0x85);
    assert!(!st.done());
    let st = LTC2983Status::from(0x40);
    assert!(st.done());
    let st = LTC2983Status::from(0x00);
    assert!(!st.done());
}

#[test]
fn config_type_field_tests_the_top_five_bits() {
    assert!(config_type_field_nonzero(0x08)); // lowest type-identifier bit
    assert!(config_type_field_nonzero(0xE8)); // type K on a configured channel
    assert!(!config_type_field_nonzero(0x00)); // unconfigured channel
    assert!(!config_type_field_nonzero(0x07)); // only non-identifier bits set
}
