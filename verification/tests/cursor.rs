//! The byte cursor that the decoders read with.

use attestation::cursor::ByteCursor;
use attestation::error::AttestationError;

#[test]
fn pieces_come_in_order() {
    let bytes = [1u8, 2, 3, 4, 5, 6];
    let mut cursor = ByteCursor::new(&bytes);
    assert_eq!(cursor.take(2), Ok(&bytes[0..2]));
    assert_eq!(cursor.take(1), Ok(&bytes[2..3]));
    assert_eq!(cursor.take(3), Ok(&bytes[3..6]));
    assert_eq!(cursor.finish(), Ok(()));
}

#[test]
fn taking_nothing_is_a_parse_error() {
    let bytes = [1u8, 2, 3];
    let mut cursor = ByteCursor::new(&bytes);
    assert_eq!(cursor.take(0), Err(AttestationError::ParseError));
    assert_eq!(cursor.take(3), Ok(&bytes[..]));
    assert_eq!(cursor.take(0), Err(AttestationError::ParseError));
}

#[test]
fn taking_too_much_is_a_parse_error_and_moves_nothing() {
    let bytes = [1u8, 2, 3];
    let mut cursor = ByteCursor::new(&bytes);
    assert_eq!(cursor.take(4), Err(AttestationError::ParseError));
    assert_eq!(cursor.take(usize::MAX), Err(AttestationError::ParseError));
    assert_eq!(cursor.take(2), Ok(&bytes[0..2]));
    assert_eq!(cursor.take(2), Err(AttestationError::ParseError));
    assert_eq!(cursor.take(usize::MAX), Err(AttestationError::ParseError));
    assert_eq!(cursor.take(1), Ok(&bytes[2..3]));
    assert_eq!(cursor.take(1), Err(AttestationError::ParseError));
}

#[test]
fn finishing_early_is_a_parse_error() {
    let bytes = [1u8, 2, 3];
    let mut cursor = ByteCursor::new(&bytes);
    assert_eq!(cursor.finish(), Err(AttestationError::ParseError));
    assert_eq!(cursor.take(2), Ok(&bytes[0..2]));
    assert_eq!(cursor.finish(), Err(AttestationError::ParseError));
    assert_eq!(cursor.take(1), Ok(&bytes[2..3]));
    assert_eq!(cursor.finish(), Ok(()));
}

#[test]
fn empty_input_is_finished_at_once() {
    let mut cursor = ByteCursor::new(&[]);
    assert_eq!(cursor.finish(), Ok(()));
    assert_eq!(cursor.take(1), Err(AttestationError::ParseError));
    assert_eq!(cursor.take_u16_le(), Err(AttestationError::ParseError));
    assert_eq!(cursor.take_u32_le(), Err(AttestationError::ParseError));
    assert_eq!(cursor.take_array::<4>(), Err(AttestationError::ParseError));
    assert_eq!(cursor.finish(), Ok(()));
}

#[test]
fn integers_are_taken_little_endian() {
    let bytes = [0x34u8, 0x12, 0x78, 0x56, 0x34, 0x12, 0xff, 0xff, 0xff, 0xff, 0xff, 0xff, 0x01];
    let mut cursor = ByteCursor::new(&bytes);
    assert_eq!(cursor.take_u16_le(), Ok(0x1234));
    assert_eq!(cursor.take_u32_le(), Ok(0x1234_5678));
    assert_eq!(cursor.take_u32_le(), Ok(u32::MAX));
    assert_eq!(cursor.take_u16_le(), Ok(u16::MAX));
    assert_eq!(cursor.take_u16_le(), Err(AttestationError::ParseError));
    assert_eq!(cursor.take_u32_le(), Err(AttestationError::ParseError));
    assert_eq!(cursor.take(1), Ok(&bytes[12..13]));
    assert_eq!(cursor.finish(), Ok(()));
}

#[test]
fn arrays_are_taken_whole() {
    let bytes = [9u8, 8, 7, 6, 5];
    let mut cursor = ByteCursor::new(&bytes);
    assert_eq!(cursor.take_array::<3>(), Ok([9, 8, 7]));
    assert_eq!(cursor.take_array::<3>(), Err(AttestationError::ParseError));
    assert_eq!(cursor.take_array::<0>(), Err(AttestationError::ParseError));
    assert_eq!(cursor.take_array::<2>(), Ok([6, 5]));
    assert_eq!(cursor.finish(), Ok(()));
}
