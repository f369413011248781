use rust_hasher::{char_is_whitespace, parse_manifest_line};

fn fields(line: &str) -> (String, String) {
    let r = parse_manifest_line(line);
    (r.checksum, r.filename)
}

#[test]
fn splits_at_first_space() {
    assert_eq!(fields("3610a686 a.txt"), ("3610a686".to_string(), "a.txt".to_string()));
}

#[test]
fn filename_with_embedded_spaces_is_kept_whole() {
    assert_eq!(fields("3610a686 my file name.txt"), ("3610a686".to_string(), "my file name.txt".to_string()));
    assert_eq!(fields("3610a686  lead"), ("3610a686".to_string(), " lead".to_string()));
    assert_eq!(fields("3610a686 trail "), ("3610a686".to_string(), "trail ".to_string()));
}

#[test]
fn splits_at_other_whitespace() {
    assert_eq!(fields("3610a686\ta b"), ("3610a686".to_string(), "a b".to_string()));
    assert_eq!(fields("x\u{3000}y"), ("x".to_string(), "y".to_string()));
}

#[test]
fn line_without_whitespace_has_empty_filename() {
    assert_eq!(fields("3610a686"), ("3610a686".to_string(), String::new()));
}

#[test]
fn blank_and_malformed_lines_still_parse() {
    assert_eq!(fields(""), (String::new(), String::new()));
    assert_eq!(fields(" a.txt"), (String::new(), "a.txt".to_string()));
    assert_eq!(fields(" "), (String::new(), String::new()));
}

#[test]
fn whitespace_characters() {
    for c in [' ', '\t', '\n', '\r', '\u{0b}', '\u{0c}', '\u{85}', '\u{a0}', '\u{2000}', '\u{200a}', '\u{2028}', '\u{3000}'] {
        assert!(char_is_whitespace(c), "{:?}", c);
        assert!(c.is_whitespace());
    }
    for c in ['a', '0', '_', '\u{200b}', '\u{1f}', '\u{e9}'] {
        assert!(!char_is_whitespace(c), "{:?}", c);
        assert!(!c.is_whitespace());
    }
}
