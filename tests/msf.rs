use chdimage::compare::CompareOp;
use chdimage::msf::{MsfIndex, MsfIndexError, ParseIntErrorKind};

fn parts(x: &MsfIndex) -> (u8, u8, u8) {
    (x.minute(), x.second(), x.frame())
}

#[test]
fn new_accepts_in_range_values() {
    let x = MsfIndex::new(12, 59, 74).unwrap();
    assert_eq!(parts(&x), (12, 59, 74));
    let y = MsfIndex::new(255, 0, 0).unwrap();
    assert_eq!(parts(&y), (255, 0, 0));
}

#[test]
fn new_rejects_second_or_frame_out_of_range() {
    assert_eq!(MsfIndex::new(0, 60, 0), Err(MsfIndexError::OutOfRangeError));
    assert_eq!(MsfIndex::new(0, 0, 75), Err(MsfIndexError::OutOfRangeError));
    assert_eq!(MsfIndex::new(3, 200, 200), Err(MsfIndexError::OutOfRangeError));
}

#[test]
fn lba_round_trip() {
    for &(m, s, f) in &[(0u8, 0u8, 0u8), (0, 2, 0), (1, 2, 3), (79, 59, 74), (255, 59, 74)] {
        let x = MsfIndex::new(m, s, f).unwrap();
        let back = MsfIndex::from_lba(x.to_lba()).unwrap();
        assert_eq!(parts(&back), (m, s, f));
    }
}

#[test]
fn to_lba_exact_values() {
    assert_eq!(MsfIndex::new(0, 0, 0).unwrap().to_lba(), 0);
    assert_eq!(MsfIndex::new(0, 2, 0).unwrap().to_lba(), 150);
    assert_eq!(MsfIndex::new(1, 2, 3).unwrap().to_lba(), 4653);
    assert_eq!(MsfIndex::new(255, 59, 74).unwrap().to_lba(), 1_151_999);
}

#[test]
fn from_lba_exact_values_and_limit() {
    assert_eq!(parts(&MsfIndex::from_lba(4653).unwrap()), (1, 2, 3));
    assert_eq!(parts(&MsfIndex::from_lba(1_151_999).unwrap()), (255, 59, 74));
    assert_eq!(MsfIndex::from_lba(1_152_000), Err(MsfIndexError::OutOfRangeError));
    assert_eq!(MsfIndex::from_lba(u32::MAX), Err(MsfIndexError::OutOfRangeError));
}

#[test]
fn from_bcd_values_reads_packed_digits() {
    let x = MsfIndex::from_bcd_values(0x12, 0x34, 0x56).unwrap();
    assert_eq!(parts(&x), (12, 34, 56));
    assert_eq!(x.to_bcd_values(), (0x12, 0x34, 0x56));
    assert_eq!(parts(&MsfIndex::from_bcd_values(0x99, 0x59, 0x74).unwrap()), (99, 59, 74));
}

#[test]
fn from_bcd_values_rejects_non_decimal_nibbles() {
    // 0x0A would be 10 in range, but its low digit is not decimal.
    assert_eq!(MsfIndex::from_bcd_values(0x0A, 0x00, 0x00), Err(MsfIndexError::InvalidMsfError));
    assert_eq!(MsfIndex::from_bcd_values(0x00, 0xA0, 0x00), Err(MsfIndexError::InvalidMsfError));
    assert_eq!(MsfIndex::from_bcd_values(0x00, 0x00, 0x1F), Err(MsfIndexError::InvalidMsfError));
}

#[test]
fn from_bcd_values_rejects_out_of_range() {
    assert_eq!(MsfIndex::from_bcd_values(0x00, 0x60, 0x00), Err(MsfIndexError::OutOfRangeError));
    assert_eq!(MsfIndex::from_bcd_values(0x00, 0x00, 0x75), Err(MsfIndexError::OutOfRangeError));
}

#[test]
fn try_from_str_reads_three_numbers() {
    assert_eq!(parts(&MsfIndex::try_from_str("01:02:03").unwrap()), (1, 2, 3));
    assert_eq!(parts(&MsfIndex::try_from_str("255:59:74").unwrap()), (255, 59, 74));
    assert_eq!(parts(&MsfIndex::try_from_str("+7:0:00").unwrap()), (7, 0, 0));
}

#[test]
fn try_from_str_rejects_wrong_shape() {
    assert_eq!(MsfIndex::try_from_str("01:02"), Err(MsfIndexError::InvalidMsfError));
    assert_eq!(MsfIndex::try_from_str("01:02:03:04"), Err(MsfIndexError::InvalidMsfError));
    assert_eq!(MsfIndex::try_from_str(""), Err(MsfIndexError::InvalidMsfError));
}

#[test]
fn try_from_str_reports_bad_numbers() {
    assert_eq!(
        MsfIndex::try_from_str(":02:03"),
        Err(MsfIndexError::ParseIntError(ParseIntErrorKind::Empty))
    );
    assert_eq!(
        MsfIndex::try_from_str("01:x2:03"),
        Err(MsfIndexError::ParseIntError(ParseIntErrorKind::InvalidDigit))
    );
    assert_eq!(
        MsfIndex::try_from_str("01:02:256"),
        Err(MsfIndexError::ParseIntError(ParseIntErrorKind::PosOverflow))
    );
    assert_eq!(
        MsfIndex::try_from_str("-1:02:03"),
        Err(MsfIndexError::ParseIntError(ParseIntErrorKind::InvalidDigit))
    );
}

#[test]
fn try_from_str_checks_range_last() {
    assert_eq!(MsfIndex::try_from_str("00:60:00"), Err(MsfIndexError::OutOfRangeError));
    assert_eq!(MsfIndex::try_from_str("00:00:75"), Err(MsfIndexError::OutOfRangeError));
}

#[test]
fn to_text_pads_to_two_digits() {
    assert_eq!(MsfIndex::new(1, 2, 3).unwrap().to_text(), "MsfIndex(01:02:03)");
    assert_eq!(MsfIndex::new(123, 45, 70).unwrap().to_text(), "MsfIndex(123:45:70)");
}

#[test]
fn ordering_follows_lba() {
    let a = MsfIndex::new(1, 59, 74).unwrap();
    let b = MsfIndex::new(2, 0, 0).unwrap();
    assert!(a.richcmp(&b, CompareOp::Lt));
    assert!(a.richcmp(&b, CompareOp::Le));
    assert!(a.richcmp(&b, CompareOp::Ne));
    assert!(!a.richcmp(&b, CompareOp::Eq));
    assert!(!a.richcmp(&b, CompareOp::Gt));
    assert!(b.richcmp(&a, CompareOp::Ge));
    let c = MsfIndex::try_from_str("02:00:00").unwrap();
    assert!(b.richcmp(&c, CompareOp::Eq));
    assert!(b.richcmp(&c, CompareOp::Le));
    assert!(b.richcmp(&c, CompareOp::Ge));
    assert_eq!(b, c);
}

#[test]
fn bcd_round_trip() {
    let x = MsfIndex::new(7, 5, 73).unwrap();
    assert_eq!(x.to_bcd_values(), (0x07, 0x05, 0x73));
    let (m, s, f) = x.to_bcd_values();
    assert_eq!(MsfIndex::from_bcd_values(m, s, f), Ok(x));
}
