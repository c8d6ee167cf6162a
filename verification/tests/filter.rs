use canbusnoop::filter::{filter_id, filter_src, matches_mask};

#[test]
fn filter_id_wants_the_same_identifier() {
    assert!(filter_id(0x09F11917, 0x09F11917));
    assert!(!filter_id(0x09F11917, 0x09F11916));
    assert!(filter_id(0, 0));
    assert!(!filter_id(0x8000_0000, 0));
}

#[test]
fn filter_src_looks_at_the_lowest_byte() {
    assert!(filter_src(0x09F11917, 0x17));
    assert!(filter_src(0x09F11917, 23));
    assert!(!filter_src(0x09F11917, 0x19));
    assert!(filter_src(0xFFFF_FF00, 0));
    assert!(!filter_src(0x1717, 0x1717));
}

#[test]
fn matches_mask_compares_masked_bits() {
    assert!(matches_mask(0x18FEF123, 0x00FF_FF00, 0x00FE_F100));
    assert!(matches_mask(0x18FEF123, 0x00FF_FF00, 0xFFFE_F1FF));
    assert!(!matches_mask(0x18FEF123, 0x00FF_FF00, 0x00FE_F200));
    assert!(matches_mask(0x1234, 0, 0xFFFF_FFFF));
    assert!(matches_mask(0x1234, 0xFFFF_FFFF, 0x1234));
    assert!(!matches_mask(0x1234, 0xFFFF_FFFF, 0x1235));
}

#[test]
fn parse_hex_reads_identifiers() {
    assert_eq!(canbusnoop::filter::parse_hex("00000000"), Some(0));
    assert_eq!(canbusnoop::filter::parse_hex("09F11917"), Some(0x09F11917));
    assert_eq!(canbusnoop::filter::parse_hex("18fef123"), Some(0x18FEF123));
    assert_eq!(canbusnoop::filter::parse_hex("ff"), Some(0xFF));
    assert_eq!(canbusnoop::filter::parse_hex("FFFFFFFF"), Some(0xFFFF_FFFF));
    assert_eq!(canbusnoop::filter::parse_hex("+1f"), Some(0x1F));
    assert_eq!(canbusnoop::filter::parse_hex("000000000000000001"), Some(1));
}

#[test]
fn parse_hex_refuses_other_text() {
    for text in ["", "+", "-1", "++1", "0x10", "12g4", " 12", "12 ", "100000000", "FFFFFFFFF", "1+", "\u{ff11}"] {
        assert_eq!(canbusnoop::filter::parse_hex(text), None, "{:?}", text);
    }
}

#[test]
fn parse_hex_agrees_with_the_standard_reader() {
    let pieces = ["", "+", "-", "0", "1", "9", "a", "f", "A", "F", "g", "G", " ", "x", "10", "ffff", "FFFF", "0000"];
    for a in pieces {
        for b in pieces {
            for c in pieces {
                let text = format!("{}{}{}", a, b, c);
                assert_eq!(
                    canbusnoop::filter::parse_hex(&text),
                    u32::from_str_radix(&text, 16).ok(),
                    "{:?}",
                    text
                );
            }
        }
    }
}
