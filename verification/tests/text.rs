use kon::number::decimal_string;
use kon::number::parse_u64;
use kon::number::push_decimal;
use kon::text::chars_of;
use kon::text::concat2;
use kon::text::concat3;
use kon::text::extend_chars;
use kon::text::extend_str;
use kon::text::find_char;
use kon::text::has_word;
use kon::text::is_space;
use kon::text::same_opt_text;
use kon::text::same_text;
use kon::text::skip_spaces;
use kon::text::string_of;
use kon::text::trim;

fn text_chars(s: &str) -> Vec<char> {
    s.chars().collect()
}

#[test]
fn chars_and_back() {
    assert_eq!(chars_of("añ\u{1f600}"), vec!['a', 'ñ', '\u{1f600}']);
    assert_eq!(string_of(&vec!['a', 'ñ', '\u{1f600}']), "añ\u{1f600}");
    assert_eq!(string_of(&chars_of("")), "");
}

#[test]
fn extend_appends() {
    let mut out = vec!['a'];
    extend_chars(&mut out, &vec!['b', 'c']);
    extend_str(&mut out, "de");
    assert_eq!(out, vec!['a', 'b', 'c', 'd', 'e']);
}

#[test]
fn concat_joins() {
    assert_eq!(concat2("ab", "cd"), "abcd");
    assert_eq!(concat3("ab", "", "cd"), "abcd");
}

#[test]
fn space_is_unicode_white_space() {
    for code in 0u32..0x11000 {
        if let Some(c) = char::from_u32(code) {
            assert_eq!(is_space(c), c.is_whitespace(), "at {:x}", code);
        }
    }
}

#[test]
fn skip_spaces_stops_at_text() {
    let s = text_chars("  \t x ");
    assert_eq!(skip_spaces(&s, 0), 4);
    assert_eq!(skip_spaces(&s, 4), 4);
    assert_eq!(skip_spaces(&s, 5), 6);
    assert_eq!(skip_spaces(&s, 6), 6);
    assert_eq!(skip_spaces(&s, 9), 9);
}

#[test]
fn find_char_finds_the_first() {
    let s = text_chars("a>b>c");
    assert_eq!(find_char(&s, 0, '>'), 1);
    assert_eq!(find_char(&s, 1, '>'), 1);
    assert_eq!(find_char(&s, 2, '>'), 3);
    assert_eq!(find_char(&s, 4, '>'), 5);
    assert_eq!(find_char(&s, 5, '>'), 5);
    assert_eq!(find_char(&s, 7, '>'), 7);
}

#[test]
fn has_word_at_index() {
    let s = text_chars("</a>x");
    assert!(has_word(&s, 0, &text_chars("</a>")));
    assert!(!has_word(&s, 1, &text_chars("</a>")));
    assert!(has_word(&s, 4, &text_chars("x")));
    assert!(!has_word(&s, 4, &text_chars("xy")));
    assert!(has_word(&s, 5, &text_chars("")));
    assert!(!has_word(&s, 6, &text_chars("")));
}

#[test]
fn trim_agrees_with_std() {
    for sample in ["", " ", "a", "  a b  ", "\n\ta\u{a0}", "\u{3000}x\u{2003}y\u{2028}", "   "] {
        let trimmed: String = trim(&text_chars(sample)).into_iter().collect();
        assert_eq!(trimmed, sample.trim(), "on {:?}", sample);
    }
}

#[test]
fn same_text_compares() {
    assert!(same_text("abc", "abc"));
    assert!(!same_text("abc", "abd"));
    assert!(!same_text("abc", "ab"));
    assert!(same_text("", ""));
}

#[test]
fn same_opt_text_compares() {
    assert!(same_opt_text(&None, &None));
    assert!(same_opt_text(&Some("a".to_string()), &Some("a".to_string())));
    assert!(!same_opt_text(&Some("a".to_string()), &None));
    assert!(!same_opt_text(&None, &Some("".to_string())));
    assert!(!same_opt_text(&Some("a".to_string()), &Some("b".to_string())));
}

#[test]
fn decimal_agrees_with_std() {
    for n in [0u64, 1, 9, 10, 11, 99, 100, 12345, 1268493237912604672, u64::MAX] {
        assert_eq!(decimal_string(n), n.to_string());
    }
}

#[test]
fn push_decimal_appends() {
    let mut out = vec!['#'];
    push_decimal(&mut out, 407);
    assert_eq!(out, vec!['#', '4', '0', '7']);
}

#[test]
fn parse_agrees_with_std() {
    for sample in [
        "0", "7", "007", "+7", "++7", "-7", "", "+", " 7", "7 ", "12a", "18446744073709551615",
        "18446744073709551616", "99999999999999999999999", "1268493237912604672", "٣",
    ] {
        assert_eq!(parse_u64(sample), sample.parse::<u64>().ok(), "on {:?}", sample);
    }
}

#[test]
fn written_numbers_are_read_back() {
    for n in [0u64, 5, 10, 4000, 865673694184996888, u64::MAX] {
        assert_eq!(parse_u64(&decimal_string(n)), Some(n));
    }
}
