use pact_cli::text::{
    decimal, i32_to_text, is_space_char, join, parse_u32, replace_plus, split_char,
    split_whitespace, starts_with, str_eq, strip_prefix, trim, trim_end_char, trim_start_char,
};

#[test]
fn whitespace_matches_char_is_whitespace() {
    for code in 0u32..=0x10FFFF {
        if let Some(c) = char::from_u32(code) {
            assert_eq!(is_space_char(c), c.is_whitespace(), "char {:#x}", code);
        }
    }
}

#[test]
fn trim_matches_str_trim() {
    for s in ["", "  ", " 1.11.4\n", "\t2603.0.1-beta \u{3000}", "a b", "\u{85}x\u{a0}"] {
        assert_eq!(trim(s), s.trim());
    }
}

#[test]
fn split_whitespace_matches_std() {
    for s in ["", "   ", "pactflow-ai 2.0.10 (ae6a94e1 2026-03-03)", "  a\tb\n\nc  ", "one"] {
        let expected: Vec<String> = s.split_whitespace().map(|w| w.to_string()).collect();
        assert_eq!(split_whitespace(s), expected);
    }
}

#[test]
fn split_char_matches_std() {
    for s in ["", "3", "3.1.2", ".", "3..", "a.b.c."] {
        let expected: Vec<String> = s.split('.').map(|w| w.to_string()).collect();
        assert_eq!(split_char(s, '.'), expected);
    }
}

#[test]
fn replace_plus_escapes_every_plus() {
    assert_eq!(replace_plus("2.0.10+ae6a94e1"), "2.0.10%2bae6a94e1");
    assert_eq!(replace_plus("++"), "%2b%2b");
    assert_eq!(replace_plus("1.11.4"), "1.11.4");
    assert_eq!(replace_plus(""), "");
}

#[test]
fn parse_u32_matches_std() {
    for s in ["", "+", "-", "0", "+5", "-5", "007", "12a", "4294967295", "4294967296", "99999999999", " 1"] {
        assert_eq!(parse_u32(s), s.parse::<u32>().ok(), "input {:?}", s);
    }
}

#[test]
fn decimal_texts() {
    assert_eq!(decimal(0), "0");
    assert_eq!(decimal(1234567890123), "1234567890123");
    for n in [0i32, 1, -1, 42, -42, 127, i32::MAX, i32::MIN] {
        assert_eq!(i32_to_text(n), n.to_string());
    }
}

#[test]
fn join_matches_std() {
    let parts = vec!["run".to_string(), "-d".to_string(), "x".to_string()];
    assert_eq!(join(&parts, " "), "run -d x");
    assert_eq!(join(&vec![], " "), "");
    assert_eq!(join(&vec!["one".to_string()], ", "), "one");
}

#[test]
fn prefixes_and_trims() {
    assert!(starts_with("pactflow-ai", "pactflow-"));
    assert!(!starts_with("pactflow", "pactflow-"));
    assert_eq!(strip_prefix("pactflow-ai", "pactflow-"), Some("ai".to_string()));
    assert_eq!(strip_prefix("drift", "pactflow-"), None);
    assert_eq!(trim_start_char("vv2.5.5", 'v'), "2.5.5");
    assert_eq!(trim_end_char("ae6a94e1))", ')'), "ae6a94e1");
    assert!(str_eq("drift", "drift"));
    assert!(!str_eq("drift", "drifts"));
}
