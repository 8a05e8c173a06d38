//! Tests of the text codec surface: encoding, decoding, errors and order.

use sulid::DecodeError;
use sulid::Sulid;

#[test]
fn nil_encodes_to_all_zero_digits() {
    assert_eq!(Sulid::from_parts(0, 0, 0, 0).to_string(), "00000000000000000000000000");
}

#[test]
fn decode_then_encode_is_identity() {
    let text = "01D39ZY06FGSCTVN4T2V9PKHFZ";
    let sulid = Sulid::from_string(text).unwrap();
    assert_eq!(sulid.to_string(), text);
}

#[test]
fn encode_then_decode_is_identity() {
    let sulid = Sulid::from_u128(0x0123_4567_89AB_CDEF_1122_3344_5566_7788);
    let text = sulid.to_string();
    assert_eq!(text.len(), 26);
    assert_eq!(Sulid::from_string(&text).unwrap(), sulid);
}

#[test]
fn decode_accepts_lowercase() {
    let upper = Sulid::from_string("01D39ZY06FGSCTVN4T2V9PKHFZ").unwrap();
    let lower = Sulid::from_string("01d39zy06fgsctvn4t2v9pkhfz").unwrap();
    assert_eq!(upper, lower);
}

#[test]
fn decode_rejects_wrong_length() {
    assert_eq!(Sulid::from_string(""), Err(DecodeError::InvalidLength));
    assert_eq!(Sulid::from_string("2D9RW50MA499CMAGHM6DD42DT"), Err(DecodeError::InvalidLength));
    assert_eq!(Sulid::from_string("2D9RW50MA499CMAGHM6DD42DTPP"), Err(DecodeError::InvalidLength));
}

#[test]
fn decode_rejects_foreign_characters() {
    assert_eq!(Sulid::from_string("2D9RW50[A499CMAGHM6DD42DTP"), Err(DecodeError::InvalidChar));
    assert_eq!(Sulid::from_string("2D9RW50LA499CMAGHM6DD42DTP"), Err(DecodeError::InvalidChar));
    assert_eq!(Sulid::from_string("2D9RW50IA499CMAGHM6DD42DTP"), Err(DecodeError::InvalidChar));
    assert_eq!(Sulid::from_string("2D9RW50OA499CMAGHM6DD42DTP"), Err(DecodeError::InvalidChar));
    assert_eq!(Sulid::from_string("2D9RW50UA499CMAGHM6DD42DTP"), Err(DecodeError::InvalidChar));
}

#[test]
fn text_order_follows_value_order() {
    let earlier = Sulid::from_parts(1_469_918_176_385, u128::MAX, 31, 31);
    let later = Sulid::from_parts(1_469_918_176_386, 0, 0, 0);
    assert!(earlier < later);
    assert!(earlier.to_string() < later.to_string());
}
