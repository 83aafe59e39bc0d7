use codex_oauth_auth::account::CachedAccessToken;
use codex_oauth_auth::table::Table;
use codex_oauth_auth::text::{
    characters, copy_text, is_blank, is_white_space, non_empty, parse_u64, same_opt, same_text,
    split_once, text_before, trim,
};

#[test]
fn white_space_is_what_std_takes_for_white_space() {
    for code in 0..=0x10ffff_u32 {
        if let Some(c) = char::from_u32(code) {
            assert_eq!(is_white_space(c), c.is_whitespace(), "{code:x}");
        }
    }
}

#[test]
fn texts_are_trimmed_as_std_trims_them() {
    for text in ["", " ", "a", " a", "a ", "\u{3000}ä b\t\r\n", "\u{200b}x", "\u{85}\u{a0}"] {
        assert_eq!(trim(text), text.trim());
        assert_eq!(is_blank(text), text.trim().is_empty());
    }
    assert_eq!(non_empty(Some(" x ")), Some("x"));
    assert_eq!(non_empty(Some(" ")), None);
    assert_eq!(non_empty(None), None);
}

#[test]
fn texts_are_split_and_ordered_as_std_does() {
    for text in ["", "::", "a::b", "a::b::c", ":::", "a:b", "ä::ö", "a:"] {
        assert_eq!(split_once(text, "::"), text.split_once("::"));
        assert_eq!(split_once(text, "."), text.split_once("."));
    }
    let texts = ["", "a", "ab", "b", "ä", "\u{ffff}", "\u{10000}", "B"];
    for a in texts {
        for b in texts {
            assert_eq!(text_before(a, b), a < b, "{a} {b}");
            assert_eq!(same_text(a, b), a == b);
            assert_eq!(same_opt(Some(a), Some(b)), a == b);
        }
    }
    assert!(same_opt(None, None));
    assert!(!same_opt(None, Some("")));
    assert_eq!(characters("aä😀"), vec!['a', 'ä', '😀']);
    assert_eq!(copy_text(&Some("x".to_string())).as_deref(), Some("x"));
}

#[test]
fn numbers_are_read_as_std_reads_them() {
    for text in [
        "", "+", "-", "0", "-0", "+0", "7", "+7", "++7", "007", " 7", "7 ", "7a", "1_0", "٣",
        "18446744073709551615", "18446744073709551616", "99999999999999999999999",
        "00000000000000000000000000007",
    ] {
        assert_eq!(parse_u64(text), text.parse::<u64>().ok(), "{text}");
    }
}

fn entry(token: &str) -> CachedAccessToken {
    CachedAccessToken {
        token: token.to_string(),
        expires_at_ms: 0,
        obtained_at_ms: 0,
    }
}

#[test]
fn a_table_holds_one_value_for_each_key() {
    let mut table: Table<CachedAccessToken> = Table::new();
    assert!(table.is_empty());
    table.insert("a".to_string(), entry("1"));
    table.insert("b".to_string(), entry("2"));
    table.insert("a".to_string(), entry("3"));
    assert_eq!(table.len(), 2);
    assert_eq!(table.get("a").map(|e| e.token.as_str()), Some("3"));
    assert!(table.contains_key("b"));
    assert!(table.get("c").is_none());
    let mut keys: Vec<String> = (0..table.len())
        .map(|i| table.entry_at(i).0.to_string())
        .collect();
    keys.sort();
    assert_eq!(keys, vec!["a", "b"]);
    assert!(table.remove("a"));
    assert!(!table.remove("a"));
    assert!(!table.contains_key("a"));
    table.clear();
    assert!(table.is_empty());
    assert_eq!(table.len(), 0);
}
