use biusrv::text::char_len;
use biusrv::text::contains;
use biusrv::text::decimal_string;
use biusrv::text::digit;
use biusrv::text::ends_with_char;
use biusrv::text::find_char;
use biusrv::text::find_char_from;
use biusrv::text::from_chars;
use biusrv::text::is_space_char;
use biusrv::text::join;
use biusrv::text::matches_at;
use biusrv::text::owned;
use biusrv::text::parse_u16;
use biusrv::text::push_decimal;
use biusrv::text::replace_char;
use biusrv::text::rfind_char;
use biusrv::text::skip_spaces;
use biusrv::text::starts_with;
use biusrv::text::str_contains;
use biusrv::text::to_chars;
use biusrv::text::trim_bounds;
use biusrv::text::trimmed;
use biusrv::text::word_end;

fn chars(s: &str) -> Vec<char> {
    s.chars().collect()
}

#[test]
fn chars_go_there_and_back() {
    assert_eq!(to_chars("héllo"), vec!['h', 'é', 'l', 'l', 'o']);
    assert_eq!(to_chars(""), Vec::<char>::new());
    assert_eq!(from_chars(&chars("héllo"), 1, 4), "éll");
    assert_eq!(from_chars(&chars("abc"), 2, 2), "");
    assert_eq!(owned("x y"), "x y");
    assert_eq!(biusrv::text::concat("ab", "cd"), "abcd");
    assert_eq!(char_len("héllo"), 5);
}

#[test]
fn characters_are_found_from_either_end() {
    let v = chars("a.b.c");
    assert_eq!(find_char(&v, '.'), Some(1));
    assert_eq!(rfind_char(&v, '.'), Some(3));
    assert_eq!(find_char(&v, 'x'), None);
    assert_eq!(rfind_char(&v, 'x'), None);
    assert_eq!(find_char_from(&v, 2, '.'), 3);
    assert_eq!(find_char_from(&v, 4, '.'), 5);
    assert_eq!(find_char_from(&v, 5, '.'), 5);
    assert_eq!(rfind_char(&Vec::new(), '.'), None);
    assert!(ends_with_char(&v, 'c'));
    assert!(!ends_with_char(&v, 'b'));
    assert!(!ends_with_char(&Vec::new(), 'c'));
}

#[test]
fn texts_are_searched_for_texts() {
    let hay = chars("abcabd");
    assert!(matches_at(&hay, &chars("abd"), 3));
    assert!(!matches_at(&hay, &chars("abd"), 0));
    assert!(!matches_at(&hay, &chars("abd"), 4));
    assert!(matches_at(&hay, &chars(""), 6));
    assert!(!matches_at(&hay, &chars(""), 7));
    assert!(starts_with(&hay, &chars("abc")));
    assert!(starts_with(&hay, &chars("")));
    assert!(!starts_with(&hay, &chars("bc")));
    assert!(!starts_with(&chars("ab"), &chars("abc")));
    assert!(contains(&hay, &chars("cab")));
    assert!(contains(&hay, &chars("abd")));
    assert!(contains(&hay, &chars("")));
    assert!(!contains(&hay, &chars("abe")));
    assert!(!contains(&chars("ab"), &chars("abc")));
    assert!(str_contains("id_like debian", "debian"));
    assert!(!str_contains("id_like", "debian"));
    assert!(str_contains("", ""));
}

#[test]
fn white_space_is_what_unicode_says() {
    for c in ['\t', '\n', '\u{b}', '\u{c}', '\r', ' ', '\u{85}', '\u{a0}', '\u{1680}', '\u{2000}', '\u{200a}', '\u{2028}', '\u{2029}', '\u{202f}', '\u{205f}', '\u{3000}'] {
        assert!(is_space_char(c), "{:?}", c);
    }
    for c in ['a', '0', '\u{8}', '\u{e}', '\u{1f}', '\u{200b}', '\u{feff}', '\u{180e}', '\u{2060}'] {
        assert!(!is_space_char(c), "{:?}", c);
    }
    for code in 0u32..0x3100 {
        if let Some(c) = char::from_u32(code) {
            assert_eq!(is_space_char(c), c.is_whitespace(), "U+{:04X}", code);
        }
    }
}

#[test]
fn trimming_removes_white_space_at_both_ends() {
    assert_eq!(trimmed("  a b \t\n"), "a b");
    assert_eq!(trimmed("a"), "a");
    assert_eq!(trimmed(" \u{a0}\u{3000} "), "");
    assert_eq!(trimmed(""), "");
    assert_eq!(trim_bounds(&chars("  ab ")), (2, 4));
    assert_eq!(trim_bounds(&chars("   ")), (3, 3));
    for s in ["", " ", "x", " x", "x ", "\u{2003}x y\u{2003}", "\r\n"] {
        assert_eq!(trimmed(s), s.trim(), "for {:?}", s);
    }
}

#[test]
fn words_are_cut_at_white_space() {
    let v = chars("ab  cd");
    assert_eq!(word_end(&v, 0), 2);
    assert_eq!(skip_spaces(&v, 2), 4);
    assert_eq!(word_end(&v, 4), 6);
    assert_eq!(word_end(&v, 6), 6);
    assert_eq!(skip_spaces(&v, 6), 6);
    assert_eq!(word_end(&v, 2), 2);
}

#[test]
fn numbers_are_written_in_decimal() {
    assert_eq!(digit(0), '0');
    assert_eq!(digit(9), '9');
    assert_eq!(decimal_string(0), "0");
    assert_eq!(decimal_string(7), "7");
    assert_eq!(decimal_string(10), "10");
    assert_eq!(decimal_string(65535), "65535");
    assert_eq!(decimal_string(u64::MAX), "18446744073709551615");
    let mut s = "n=".to_string();
    push_decimal(&mut s, 1000);
    assert_eq!(s, "n=1000");
    for n in [0u64, 9, 10, 99, 100, 101, 123456789, 1 << 40] {
        assert_eq!(decimal_string(n), n.to_string());
    }
}

#[test]
fn numbers_below_65536_are_read() {
    let read = |s: &str| {
        let v = chars(s);
        parse_u16(&v, 0, v.len())
    };
    assert_eq!(read("0"), Some(0));
    assert_eq!(read("65535"), Some(65535));
    assert_eq!(read("65536"), None);
    assert_eq!(read("+22"), Some(22));
    assert_eq!(read("000022"), Some(22));
    assert_eq!(read(""), None);
    assert_eq!(read("+"), None);
    assert_eq!(read("-1"), None);
    assert_eq!(read("++1"), None);
    assert_eq!(read("1+"), None);
    assert_eq!(read("12a"), None);
    assert_eq!(read(" 12"), None);
    assert_eq!(read("４２"), None);
    assert_eq!(read("99999999999999999999999"), None);
    assert_eq!(parse_u16(&chars("ab80cd"), 2, 4), Some(80));
    for s in ["0", "1", "+1", "-0", "65535", "65536", "", "+", "007", "1e3", "0x10"] {
        assert_eq!(read(s), s.parse::<u16>().ok(), "for {:?}", s);
    }
}

#[test]
fn texts_are_joined_with_a_separator() {
    let v = |items: &[&str]| -> Vec<String> { items.iter().map(|s| s.to_string()).collect() };
    assert_eq!(join(&v(&[]), ", "), "");
    assert_eq!(join(&v(&["a"]), ", "), "a");
    assert_eq!(join(&v(&["a", "b", "c"]), ", "), "a, b, c");
    assert_eq!(join(&v(&["", ""]), "-"), "-");
    assert_eq!(join(&v(&["a", "b"]), ""), "ab");
}

#[test]
fn characters_are_replaced_one_for_one() {
    assert_eq!(replace_char("a\\b\\c", '\\', '/'), "a/b/c");
    assert_eq!(replace_char("abc", 'x', 'y'), "abc");
    assert_eq!(replace_char("", 'x', 'y'), "");
    assert_eq!(replace_char("aaa", 'a', 'a'), "aaa");
}
