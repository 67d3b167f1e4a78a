use prior_notebook::engine::text::{
    digit_char, has_prefix, parse_u16, same_text, trim, unbreak, without_prefix,
};

fn samples() -> Vec<&'static str> {
    vec![
        "", " ", "a", " a", "a ", "  a b  ", "\n", "\ta\n", "a\nb", "\u{a0}x\u{2003}", "é",
        " é ü ", "\r\n mixed \r\n", "0", "+", "+0", "-0", "65535", "65536", "+65535", "00080",
        "8 0", " 80", "80 ", "1e3", "٣", "999999999999999999999999", "+-1", "++1", "Bearer x",
        "Bearer ", "bearer", "/health", "/healthz",
    ]
}

#[test]
fn same_text_compares_contents() {
    for a in samples() {
        for b in samples() {
            assert_eq!(same_text(a, b), a == b, "{:?} {:?}", a, b);
        }
    }
}

#[test]
fn prefixes_are_found_and_removed() {
    for text in samples() {
        for prefix in samples() {
            assert_eq!(has_prefix(text, prefix), text.starts_with(prefix), "{:?} {:?}", text, prefix);
            assert_eq!(
                without_prefix(text, prefix),
                text.strip_prefix(prefix).map(|rest| rest.to_string()),
                "{:?} {:?}",
                text,
                prefix
            );
        }
    }
    assert_eq!(without_prefix("Bearer abc", "Bearer "), Some("abc".to_string()));
    assert_eq!(without_prefix("éa", "é"), Some("a".to_string()));
}

#[test]
fn numbers_up_to_65535_are_read() {
    for text in samples() {
        assert_eq!(parse_u16(text), text.parse::<u16>().ok(), "{:?}", text);
    }
    for number in [0u32, 1, 9, 10, 99, 255, 256, 9999, 65534, 65535, 65536, 70000, 655350] {
        let text = number.to_string();
        assert_eq!(parse_u16(&text), text.parse::<u16>().ok(), "{:?}", text);
    }
    assert_eq!(parse_u16("8080"), Some(8080));
    assert_eq!(parse_u16("65536"), None);
}

#[test]
fn white_space_is_trimmed() {
    for text in samples() {
        assert_eq!(trim(text), text.trim(), "{:?}", text);
    }
    assert_eq!(trim("  a b  "), "a b");
}

#[test]
fn line_feeds_become_spaces() {
    for text in samples() {
        assert_eq!(unbreak(text), text.replace('\n', " "), "{:?}", text);
    }
    assert_eq!(unbreak("a\nb\n"), "a b ");
}

#[test]
fn digits_have_characters() {
    let digits: String = (0..10).map(digit_char).collect();
    assert_eq!(digits, "0123456789");
}
