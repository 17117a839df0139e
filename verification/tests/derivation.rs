use meterfeeder::constants::Status;
use meterfeeder::decode::{int32_from_le_bytes, u64_from_le_bytes};
use meterfeeder::driver::is_family_serial;
use meterfeeder::generator::{take_exact, MeterFeederError};

#[test]
fn int32_decode_one() {
    assert_eq!(int32_from_le_bytes(0x01, 0x00, 0x00, 0x00), 1);
}

#[test]
fn int32_decode_minus_one() {
    assert_eq!(int32_from_le_bytes(0xFF, 0xFF, 0xFF, 0xFF), -1);
}

#[test]
fn int32_decode_extremes() {
    assert_eq!(int32_from_le_bytes(0x00, 0x00, 0x00, 0x80), i32::MIN);
    assert_eq!(int32_from_le_bytes(0xFF, 0xFF, 0xFF, 0x7F), i32::MAX);
    assert_eq!(int32_from_le_bytes(0x00, 0x00, 0x00, 0x00), 0);
}

#[test]
fn int32_decode_little_endian_order() {
    assert_eq!(int32_from_le_bytes(0x78, 0x56, 0x34, 0x12), 0x12345678);
}

#[test]
fn u64_decode_all_zero_is_zero() {
    assert_eq!(u64_from_le_bytes(0, 0, 0, 0, 0, 0, 0, 0), 0);
}

#[test]
fn u64_decode_all_ff_is_max() {
    assert_eq!(
        u64_from_le_bytes(0xFF, 0xFF, 0xFF, 0xFF, 0xFF, 0xFF, 0xFF, 0xFF),
        u64::MAX
    );
}

#[test]
fn u64_decode_little_endian_order() {
    assert_eq!(
        u64_from_le_bytes(0xEF, 0xCD, 0xAB, 0x89, 0x67, 0x45, 0x23, 0x01),
        0x0123456789ABCDEF
    );
}

#[test]
fn uniform_normalization_of_decoded_extremes() {
    // The uniform draw normalizes the decoded 64-bit value by its top 53
    // bits over 2^53: the all-zero extreme is exactly 0.0, and the all-ones
    // extreme stays strictly below 1.0 while approaching it.
    let low = u64_from_le_bytes(0, 0, 0, 0, 0, 0, 0, 0);
    assert_eq!(((low >> 11) as f64) / ((1u64 << 53) as f64), 0.0);
    let high = u64_from_le_bytes(0xFF, 0xFF, 0xFF, 0xFF, 0xFF, 0xFF, 0xFF, 0xFF);
    let u = ((high >> 11) as f64) / ((1u64 << 53) as f64);
    assert!(u < 1.0);
    assert!(u > 1.0 - 1e-12);
}

#[test]
fn family_prefix_accepts_product_line_serials() {
    assert!(is_family_serial("QWR4A003"));
    assert!(is_family_serial("QWR"));
}

#[test]
fn family_prefix_rejects_other_serials() {
    assert!(!is_family_serial(""));
    assert!(!is_family_serial("QW"));
    assert!(!is_family_serial("ABC1234"));
    assert!(!is_family_serial("qwr4A003"));
}

#[test]
fn status_is_ok() {
    assert!(Status::Success.is_ok());
    assert!(!Status::RxdBytesLengthWrong.is_ok());
}

#[test]
fn take_exact_passes_the_buffer_through_on_a_full_transfer() {
    let r = take_exact(vec![7, 8, 9], 3, 3);
    assert_eq!(r.unwrap(), vec![7, 8, 9]);
}

#[test]
fn take_exact_rejects_any_other_transfer_count() {
    assert!(matches!(
        take_exact(vec![7, 8, 9], 2, 3),
        Err(MeterFeederError::ReadLengthMismatch)
    ));
    assert!(matches!(
        take_exact(vec![0; 4], 5, 4),
        Err(MeterFeederError::ReadLengthMismatch)
    ));
    assert!(matches!(
        take_exact(Vec::new(), 1, 0),
        Err(MeterFeederError::ReadLengthMismatch)
    ));
}
