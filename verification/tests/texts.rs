use dart_monty_native::callid::parse_call_id;
use dart_monty_native::text::{parse_c_str, split_names, to_c_string};

#[test]
fn test_to_c_string_basic() {
    let bytes = to_c_string("hello");
    assert!(!bytes.is_empty());
    assert_eq!(bytes, b"hello\0");
}

#[test]
fn test_to_c_string_empty() {
    let bytes = to_c_string("");
    assert!(!bytes.is_empty());
    assert_eq!(bytes, b"\0");
}

#[test]
fn test_to_c_string_with_interior_nul() {
    let bytes = to_c_string("hello\0world");
    assert!(!bytes.is_empty());
    assert_eq!(bytes, b"\0");
}

#[test]
fn test_parse_c_str_valid() {
    let result = parse_c_str(Some(b"hello"), "arg");
    assert_eq!(result, Ok("hello".to_string()));
}

#[test]
fn test_parse_c_str_null() {
    let result = parse_c_str(None, "arg");
    assert!(result.is_err());
    assert_eq!(result.err().unwrap(), "arg is NULL");
}

#[test]
fn parse_c_str_rejects_invalid_utf8() {
    assert_eq!(parse_c_str(Some(&[0x61, 0xFF]), "arg"), Err("arg is not valid UTF-8".to_string()));
    assert_eq!(parse_c_str(Some(&[0xED, 0xA0, 0x80]), "x"), Err("x is not valid UTF-8".to_string()));
    assert_eq!(parse_c_str(Some("gr\u{fc}n".as_bytes()), "x"), Ok("gr\u{fc}n".to_string()));
    assert_eq!(parse_c_str(Some(b""), "x"), Ok(String::new()));
}

#[test]
fn to_c_string_keeps_text_beyond_ascii() {
    let mut expected = "gr\u{fc}n \u{1F600}".as_bytes().to_vec();
    expected.push(0);
    assert_eq!(to_c_string("gr\u{fc}n \u{1F600}"), expected);
}

#[test]
fn split_names_cases() {
    let none: Vec<String> = vec![];
    assert_eq!(split_names(""), none);
    assert_eq!(split_names("f"), vec!["f"]);
    assert_eq!(split_names("f,g"), vec!["f", "g"]);
    assert_eq!(split_names(" f ,\tg\n, h"), vec!["f", "g", "h"]);
    assert_eq!(split_names("f,,g"), vec!["f", "", "g"]);
    assert_eq!(split_names(","), vec!["", ""]);
    assert_eq!(split_names("f,"), vec!["f", ""]);
    assert_eq!(split_names("  "), vec![""]);
    assert_eq!(split_names("a b, c\u{a0}"), vec!["a b", "c"]);
    assert_eq!(split_names("\u{3000}na\u{ef}ve\u{2003}"), vec!["na\u{ef}ve"]);
}

#[test]
fn split_names_agrees_with_split_and_trim() {
    for list in ["x", "x, y ,z", " , ", "a,b,,c,", "\t\tq\r\n,w"] {
        let expected: Vec<String> = list.split(',').map(|f| f.trim().to_string()).collect();
        assert_eq!(split_names(list), expected);
    }
}

#[test]
fn parse_call_id_cases() {
    assert_eq!(parse_call_id("0"), Some(0));
    assert_eq!(parse_call_id("7"), Some(7));
    assert_eq!(parse_call_id("007"), Some(7));
    assert_eq!(parse_call_id("+5"), Some(5));
    assert_eq!(parse_call_id("4294967295"), Some(u32::MAX));
    assert_eq!(parse_call_id("4294967296"), None);
    assert_eq!(parse_call_id("99999999999999999999999999"), None);
    assert_eq!(parse_call_id(""), None);
    assert_eq!(parse_call_id("+"), None);
    assert_eq!(parse_call_id("-1"), None);
    assert_eq!(parse_call_id(" 1"), None);
    assert_eq!(parse_call_id("1 "), None);
    assert_eq!(parse_call_id("1x"), None);
    assert_eq!(parse_call_id("++1"), None);
    assert_eq!(parse_call_id("\u{663}"), None);
}

#[test]
fn parse_call_id_agrees_with_the_standard_parser() {
    for key in ["12", "+12", "0012", "4294967295", "4294967296", "", "+", "-0", "1e3", "0x10", "٣"] {
        assert_eq!(parse_call_id(key), key.parse::<u32>().ok(), "key {key:?}");
    }
}

#[test]
fn white_space_is_the_unicode_property() {
    let spaces = [
        '\u{9}', '\u{a}', '\u{b}', '\u{c}', '\u{d}', ' ', '\u{85}', '\u{a0}', '\u{1680}', '\u{2000}',
        '\u{2001}', '\u{2002}', '\u{2003}', '\u{2004}', '\u{2005}', '\u{2006}', '\u{2007}', '\u{2008}',
        '\u{2009}', '\u{200a}', '\u{2028}', '\u{2029}', '\u{202f}', '\u{205f}', '\u{3000}',
    ];
    for c in spaces {
        assert_eq!(split_names(&format!("{c}x{c}")), vec!["x"], "{c:?}");
    }
    for c in ['\u{8}', '\u{e}', '\u{1f}', '\u{200b}', '\u{2060}', '\u{feff}', '\u{180e}', '_'] {
        assert_eq!(split_names(&format!("{c}x{c}")), vec![format!("{c}x{c}")], "{c:?}");
    }
    let mut count = 0;
    for code in 0..=0x10ffffu32 {
        if let Some(c) = char::from_u32(code) {
            if split_names(&c.to_string()) == vec![String::new()] {
                count += 1;
            }
        }
    }
    assert_eq!(count, 25);
}
