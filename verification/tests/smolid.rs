use smolid::{Smolid, SmolidError, EPOCH};

fn unix_millis_now() -> u64 {
    std::time::SystemTime::now()
        .duration_since(std::time::UNIX_EPOCH)
        .expect("clock before Unix epoch")
        .as_millis() as u64
}

#[test]
fn nil_properties() {
    let n = Smolid::nil();
    assert!(n.is_nil());
    assert_eq!(n.as_u64(), 0);
    assert_eq!(n.to_u64(), 0);
    assert_eq!(n.get_type(), None);
    assert_eq!(n.version(), 0);
    assert!(!n.is_valid());
    assert_eq!(n.timestamp(), EPOCH);
    assert!(!n.is_of_type(0));
}

#[test]
fn encode_nil_is_all_zero_symbols() {
    let n = Smolid::nil();
    assert_eq!(n.encode(), "aaaaaaaaaaaaa");
    let back = Smolid::parse("aaaaaaaaaaaaa").expect("nil text decodes");
    assert!(back.is_nil());
    assert_eq!(back, n);
}

#[test]
fn generated_ids_are_valid() {
    for _ in 0..64 {
        let x = Smolid::new();
        assert!(x.is_valid());
        assert!(!x.is_nil());
        assert_eq!(x.version(), 1);
        assert_eq!(x.get_type(), None);
        assert!(!x.is_of_type(0));
    }
}

#[test]
fn generated_timestamp_lies_in_call_window() {
    let before: u64 = unix_millis_now();
    let x = Smolid::new();
    let after: u64 = unix_millis_now();
    assert!(before <= x.timestamp());
    assert!(x.timestamp() <= after);
}

#[test]
fn typed_ids_carry_their_tag() {
    for t in 0u16..=127u16 {
        let x = Smolid::new_with_type(t).expect("tag in range");
        assert_eq!(x.get_type(), Some(t));
        assert!(x.is_of_type(t));
        assert!(!x.is_of_type(t.wrapping_add(1)));
        assert!(x.is_valid());
        assert_eq!(x.version(), 1);
        assert!(!x.is_nil());
    }
}

#[test]
fn out_of_range_tag_is_refused() {
    for t in [128u16, 200u16, u16::MAX] {
        let r = Smolid::new_with_type(t);
        assert_eq!(r, Err(SmolidError::TypeOutOfRange { max: 127 }));
    }
}

#[test]
fn accessors_are_idempotent() {
    let x = Smolid::new_with_type(5).expect("tag in range");
    assert_eq!(x.as_u64(), x.as_u64());
    assert_eq!(x.to_u64(), x.to_u64());
    assert_eq!(x.timestamp(), x.timestamp());
    assert_eq!(x.is_nil(), x.is_nil());
    assert_eq!(x.version(), x.version());
    assert_eq!(x.is_valid(), x.is_valid());
    assert_eq!(x.get_type(), x.get_type());
    assert_eq!(x.is_of_type(5), x.is_of_type(5));
    assert_eq!(x.encode(), x.encode());
}

#[test]
fn encode_parse_round_trip() {
    let mut ids: Vec<Smolid> = vec![
        Smolid::nil(),
        Smolid::from_parts(0, 0),
        Smolid::from_parts(5, 7),
        Smolid::from_parts(123_456_789, 0xabcde),
        Smolid::from_parts(0x1ff_ffff_ffff, 0xfffff),
    ];
    for _ in 0..16 {
        ids.push(Smolid::new());
        ids.push(Smolid::new_with_type(42).expect("tag in range"));
    }
    for x in ids {
        let text = x.encode();
        assert_eq!(text.len(), 13);
        assert!(text.chars().all(|c| c.is_ascii_lowercase() || ('2'..='7').contains(&c)));
        let back = Smolid::parse(&text).expect("own text decodes");
        assert_eq!(back, x);
        assert_eq!(back.as_u64(), x.as_u64());
    }
}

#[test]
fn parse_accepts_any_case() {
    let x = Smolid::from_parts(987_654_321, 0x2468a);
    let text = x.encode();
    let upper = text.to_uppercase();
    assert_eq!(Smolid::parse(&upper).expect("uppercase decodes"), x);
    let mut mixed = String::new();
    for (i, c) in text.chars().enumerate() {
        if i % 2 == 0 {
            mixed.extend(c.to_uppercase());
        } else {
            mixed.push(c);
        }
    }
    assert_eq!(Smolid::parse(&mixed).expect("mixed case decodes"), x);
}

#[test]
fn parse_all_ones() {
    // Thirteen '7' symbols carry 65 one bits; the final pad bit is
    // dropped, so the value is all ones.
    let x = Smolid::parse("7777777777777").expect("decodes");
    assert_eq!(x.as_u64(), u64::MAX);
    // The canonical text of that value ends in '6' (pad bit zero).
    assert_eq!(x.encode(), "7777777777776");
    assert_eq!(Smolid::parse("7777777777776").expect("decodes").as_u64(), u64::MAX);
}

#[test]
fn parse_reports_wrong_length() {
    // 12 symbols carry 7 bytes, 14 symbols carry 9.
    assert_eq!(
        Smolid::parse("aaaaaaaaaaaa"),
        Err(SmolidError::WrongLength { expected: 8, actual: 7 })
    );
    assert_eq!(
        Smolid::parse("aaaaaaaaaaaaaa"),
        Err(SmolidError::WrongLength { expected: 8, actual: 9 })
    );
    assert_eq!(
        Smolid::parse(""),
        Err(SmolidError::WrongLength { expected: 8, actual: 0 })
    );
    assert_eq!(
        Smolid::parse("a"),
        Err(SmolidError::WrongLength { expected: 8, actual: 1 })
    );
}

#[test]
fn parse_reports_invalid_characters() {
    assert_eq!(Smolid::parse("aaaa!aaaaaaaa"), Err(SmolidError::InvalidEncoding));
    assert_eq!(Smolid::parse("aaaaaaaaaaaa0"), Err(SmolidError::InvalidEncoding));
    assert_eq!(Smolid::parse("aaaaaaaaaaaa1"), Err(SmolidError::InvalidEncoding));
    assert_eq!(Smolid::parse("aaaaaaaaaaaa8"), Err(SmolidError::InvalidEncoding));
    assert_eq!(Smolid::parse("aaaaaaaaaaaa="), Err(SmolidError::InvalidEncoding));
    assert_eq!(Smolid::parse("aaaaaaaaaaaaä"), Err(SmolidError::InvalidEncoding));
    // An invalid character is reported even when the length is wrong too.
    assert_eq!(Smolid::parse("!"), Err(SmolidError::InvalidEncoding));
}

#[test]
fn version_field_is_read_from_bits_21_and_22() {
    // Only bit 22 set: version 2, not valid.
    let x = Smolid::parse("aaaaaaaaiaaaa").expect("decodes");
    assert_eq!(x.as_u64(), 1 << 22);
    assert_eq!(x.version(), 2);
    assert!(!x.is_valid());
    // Low entropy bits must not leak into the version.
    let y = Smolid::from_parts(0, 3);
    assert_eq!(y.version(), 1);
}

#[test]
fn from_parts_is_deterministic() {
    let x = Smolid::from_parts(5, 7);
    assert_eq!(x.as_u64(), (5u64 << 23) | (1u64 << 21) | 7);
    assert_eq!(x.timestamp(), EPOCH + 5);
    assert_eq!(x, Smolid::from_parts(5, 7));
    let y = Smolid::from_parts(0, 0);
    assert_eq!(y.as_u64(), 1u64 << 21);
    assert_eq!(y.timestamp(), EPOCH);
    // The timestamp field holds 41 bits; an offset beyond them is
    // truncated, as the composing shift drops the high bits.
    let z = Smolid::from_parts(1u64 << 41, 0);
    assert_eq!(z.timestamp(), EPOCH);
}

#[test]
fn matches_reference_base32_encoding() {
    let ids: Vec<Smolid> = vec![
        Smolid::nil(),
        Smolid::from_parts(0, 1),
        Smolid::from_parts(31_536_000_000, 0x54321),
        Smolid::new(),
        Smolid::new_with_type(99).expect("tag in range"),
    ];
    for x in ids {
        let reference = base32::encode(
            base32::Alphabet::Rfc4648 { padding: false },
            &x.as_u64().to_be_bytes(),
        )
        .to_lowercase();
        assert_eq!(x.encode(), reference);
        assert_eq!(Smolid::parse(&reference).expect("reference text decodes"), x);
    }
}

#[test]
fn generated_ids_are_mostly_distinct() {
    let mut seen = std::collections::HashSet::new();
    let total: usize = 1000;
    for _ in 0..total {
        seen.insert(Smolid::new().as_u64());
    }
    // Collisions need the same millisecond and the same 20-bit draw;
    // a run of 1000 stays almost entirely distinct.
    assert!(seen.len() >= total - 10);
}
