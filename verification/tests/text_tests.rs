use plural_userproxies::text::{chars_of, char_string, contains_str, str_eq, trim};

#[test]
fn chars_of_lists_characters() {
    assert_eq!(chars_of("aé✓"), vec!['a', 'é', '✓']);
    assert!(chars_of("").is_empty());
}

#[test]
fn contains_str_finds_substrings() {
    assert!(contains_str("userproxy", "proxy"));
    assert!(contains_str("userproxy", "user"));
    assert!(contains_str("userproxy", ""));
    assert!(contains_str("", ""));
    assert!(!contains_str("userproxy", "proxies"));
    assert!(!contains_str("abc", "abcd"));
    assert!(contains_str("héllo wörld", "ö"));
}

#[test]
fn str_eq_compares_text() {
    assert!(str_eq("READY", "READY"));
    assert!(!str_eq("READY", "READ"));
    assert!(!str_eq("ready", "READY"));
}

#[test]
fn trim_removes_surrounding_white_space() {
    assert_eq!(trim("  tok en \n\t"), "tok en");
    assert_eq!(trim("\u{3000}x\u{a0}"), "x");
    assert_eq!(trim("   "), "");
    assert_eq!(trim(""), "");
    assert_eq!(trim("abc"), "abc");
}

#[test]
fn char_string_holds_one_character() {
    assert_eq!(char_string('x'), "x");
    assert_eq!(char_string('\u{7f}'), "\u{7f}");
}

#[test]
fn is_whitespace_agrees_with_std() {
    for n in 0u32..0x11000 {
        if let Some(c) = char::from_u32(n) {
            assert_eq!(plural_userproxies::text::is_whitespace(c), c.is_whitespace(), "U+{:04X}", n);
        }
    }
}

#[test]
fn trim_of_leading_space() {
    assert_eq!(trim(" a"), "a");
}
