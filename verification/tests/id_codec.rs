use lumen::id::{Id, ParseError};

#[test]
fn encode_fields_and_parity() {
    let id = Id::from(5, 2, 10, 20, 30, 40);
    assert_eq!(id.level(), 5);
    assert_eq!(id.typ(), 2);
    assert_eq!(id.body(), 10);
    assert_eq!(id.barrel(), 20);
    assert_eq!(id.magazine(), 30);
    assert_eq!(id.stock(), 40);
    assert_eq!(id.parity, 5 ^ 2 ^ 10 ^ 20 ^ 30 ^ 40);
    assert_eq!(id.reserved, 0);
}

#[test]
fn encoded_ids_verify() {
    let samples: [(u8, u8, u8, u8, u8, u8); 5] = [
        (0, 0, 0, 0, 0, 0),
        (5, 2, 10, 20, 30, 40),
        (255, 255, 255, 255, 255, 255),
        (32, 6, 1, 2, 3, 4),
        (17, 3, 200, 100, 50, 25),
    ];
    for (l, t, b, r, m, s) in samples {
        assert!(Id::from(l, t, b, r, m, s).check());
    }
}

#[test]
fn corrupted_byte_fails_check() {
    let id = Id::from(5, 2, 10, 20, 30, 40);
    let mut bad = id;
    bad.body ^= 0x04;
    assert!(!bad.check());
    let mut bad_parity = id;
    bad_parity.parity ^= 0x01;
    assert!(!bad_parity.check());
}

#[test]
fn reserved_byte_not_covered() {
    let mut id = Id::from(5, 2, 10, 20, 30, 40);
    id.reserved ^= 0x80;
    assert!(id.check());
}

#[test]
fn hex_rendering() {
    let id = Id::from(5, 2, 10, 20, 30, 40);
    assert_eq!(id.to_hex(), "05020a141e28002f");
}

#[test]
fn hex_rendering_zero_padded() {
    let id = Id::from(0, 0, 0, 0, 0, 0);
    assert_eq!(id.to_hex(), "0000000000000000");
}

#[test]
fn hex_round_trip() {
    let id = Id::from(17, 3, 200, 100, 50, 25);
    let s = id.to_hex();
    let back = Id::parse(&s).unwrap();
    assert_eq!(back, id);
    assert!(back.check());
}

#[test]
fn parse_from_u64_value() {
    let id = Id::parse("05020a141e28002f").unwrap();
    assert_eq!(id, Id::from(5, 2, 10, 20, 30, 40));
}

#[test]
fn parse_short_string_fills_high_bytes_with_zero() {
    let id = Id::parse("ff").unwrap();
    assert_eq!(id.level(), 0);
    assert_eq!(id.parity, 0xff);
    assert!(!id.check());
}

#[test]
fn parse_accepts_leading_plus_and_upper_case() {
    let id = Id::parse("+05020A141E28002F").unwrap();
    assert_eq!(id, Id::from(5, 2, 10, 20, 30, 40));
}

#[test]
fn parse_empty_fails() {
    assert_eq!(Id::parse(""), Err(ParseError::Empty));
}

#[test]
fn parse_sign_alone_fails() {
    assert_eq!(Id::parse("+"), Err(ParseError::InvalidDigit));
}

#[test]
fn parse_bad_digit_fails() {
    assert_eq!(Id::parse("05020a141e28002g"), Err(ParseError::InvalidDigit));
    assert_eq!(Id::parse("not hex"), Err(ParseError::InvalidDigit));
}

#[test]
fn parse_more_than_64_bits_fails() {
    assert_eq!(Id::parse("10000000000000000"), Err(ParseError::Overflow));
    assert_eq!(Id::parse("ffffffffffffffff").map(|id| id.to_hex()), Ok("ffffffffffffffff".to_string()));
}

#[test]
fn flipped_last_hex_digit_fails_check() {
    let id = Id::from(5, 2, 10, 20, 30, 40);
    let s = id.to_hex();
    let mut chars: Vec<char> = s.chars().collect();
    // the last digit is 'f'; flip its lowest bit to get 'e'
    let last = chars.pop().unwrap();
    assert_eq!(last, 'f');
    chars.push('e');
    let tampered: String = chars.into_iter().collect();
    let parsed = Id::parse(&tampered).unwrap();
    assert!(!parsed.check());
}

#[test]
fn unpack_u64_big_endian() {
    let id = Id::new(0x05020a141e28002f);
    assert_eq!(id, Id::from(5, 2, 10, 20, 30, 40));
    let high = Id::new(0xff00000000000000);
    assert_eq!(high.level(), 0xff);
    assert_eq!(high.parity, 0);
}
