//! Tests of layout loading: JSON5 parsing, hex decoding, keymap and
//! combination lookups, and each config error.

use ongeul::layout::{parse_hex_char, KeyboardLayout, LayoutType};

const MINIMAL_JAMO_JSON: &str = r#"{
    id: "test-2bul",
    name: "테스트 두벌식",
    type: "jamo",
    keymap: {
        "q": "0x3142",  // ㅂ
        "w": "0x3148",  // ㅈ
        "k": "0x314F",  // ㅏ
    },
    combinations: [
        { first: "0x3157", second: "0x314F", result: "0x3158" },  // ㅗ + ㅏ = ㅘ
    ],
}"#;

#[test]
fn test_parse_layout() {
    let layout = KeyboardLayout::from_json(MINIMAL_JAMO_JSON).unwrap();
    assert_eq!(layout.id, "test-2bul");
    assert_eq!(layout.layout_type, LayoutType::Jamo);
}

#[test]
fn test_map_key() {
    let layout = KeyboardLayout::from_json(MINIMAL_JAMO_JSON).unwrap();
    assert_eq!(layout.map_key("q"), Some('ㅂ'));
    assert_eq!(layout.map_key("w"), Some('ㅈ'));
    assert_eq!(layout.map_key("k"), Some('ㅏ'));
    assert_eq!(layout.map_key("z"), None);
}

#[test]
fn test_combine() {
    let layout = KeyboardLayout::from_json(MINIMAL_JAMO_JSON).unwrap();
    assert_eq!(layout.combine('ㅗ', 'ㅏ'), Some('ㅘ'));
    assert_eq!(layout.combine('ㅏ', 'ㅏ'), None);
}

#[test]
fn test_invalid_json() {
    let result = KeyboardLayout::from_json("not json");
    assert!(result.is_err());
}

#[test]
fn test_parse_hex_char() {
    assert_eq!(parse_hex_char("0x3131"), Some('ㄱ'));
    assert_eq!(parse_hex_char("0xAC00"), Some('가'));
    assert_eq!(parse_hex_char("invalid"), None);
}

#[test]
fn test_parse_hex_char_edges() {
    assert_eq!(parse_hex_char(""), None);
    assert_eq!(parse_hex_char("0x"), None);
    assert_eq!(parse_hex_char("0xZZ"), None);
    assert_eq!(parse_hex_char("0X3131"), Some('ㄱ'));
    assert_eq!(parse_hex_char("0x0000ac00"), Some('가'));
    // A surrogate is no scalar value.
    assert_eq!(parse_hex_char("0xD800"), None);
    // Past the last code point, and past 32 bits.
    assert_eq!(parse_hex_char("0x110000"), None);
    assert_eq!(parse_hex_char("0x100000000"), None);
    assert_eq!(parse_hex_char("0x10FFFF"), Some('\u{10FFFF}'));
}

#[test]
fn test_missing_fields_rejected() {
    assert!(KeyboardLayout::from_json(r#"{ name: "x", type: "jamo", keymap: {} }"#).is_err());
    assert!(KeyboardLayout::from_json(r#"{ id: "x", type: "jamo", keymap: {} }"#).is_err());
    assert!(KeyboardLayout::from_json(r#"{ id: "x", name: "x", keymap: {} }"#).is_err());
    assert!(KeyboardLayout::from_json(r#"{ id: "x", name: "x", type: "jamo" }"#).is_err());
}

#[test]
fn test_unknown_type_rejected() {
    let r = KeyboardLayout::from_json(r#"{ id: "x", name: "x", type: "qwerty", keymap: {} }"#);
    assert!(r.is_err());
}

#[test]
fn test_bad_hex_rejected() {
    let r = KeyboardLayout::from_json(
        r#"{ id: "x", name: "x", type: "jamo", keymap: { "q": "3142" } }"#,
    );
    assert!(r.is_err());
    let r = KeyboardLayout::from_json(
        r#"{ id: "x", name: "x", type: "jamo", keymap: {},
             combinations: [ { first: "0x3157", second: "oops", result: "0x3158" } ] }"#,
    );
    assert!(r.is_err());
}

#[test]
fn test_defaults_and_options() {
    let plain = KeyboardLayout::from_json(
        r#"{ id: "x", name: "x", type: "jaso", keymap: {} }"#,
    )
    .unwrap();
    assert_eq!(plain.layout_type, LayoutType::Jaso);
    assert!(!plain.auto_reorder);
    let with_options = KeyboardLayout::from_json(
        r#"{ id: "x", name: "x", type: "jaso", keymap: {}, options: { auto_reorder: true } }"#,
    )
    .unwrap();
    assert!(with_options.auto_reorder);
}
