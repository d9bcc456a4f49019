use sentient_tui::text::{
    chars_of, decimal_string, endpoint, format_gold, normalise_code, push_decimal, push_signed,
    truncate, truncate_bytes,
};

#[test]
fn format_gold_groups_thousands() {
    assert_eq!(format_gold(0), "0");
    assert_eq!(format_gold(999), "999");
    assert_eq!(format_gold(1000), "1,000");
    assert_eq!(format_gold(1_234_567), "1,234,567");
    assert_eq!(format_gold(100_000), "100,000");
}

#[test]
fn format_gold_largest_value() {
    assert_eq!(format_gold(u64::MAX), "18,446,744,073,709,551,615");
}

#[test]
fn format_gold_digits_survive_without_commas() {
    for g in [0u64, 7, 1_000, 12_345, 9_876_543_210] {
        assert_eq!(format_gold(g).replace(',', ""), g.to_string());
    }
}

#[test]
fn decimal_string_writes_digits() {
    assert_eq!(decimal_string(0), "0");
    assert_eq!(decimal_string(42), "42");
    assert_eq!(decimal_string(u64::MAX), u64::MAX.to_string());
}

#[test]
fn push_decimal_and_signed_append() {
    let mut s = String::from("x=");
    push_decimal(&mut s, 305);
    assert_eq!(s, "x=305");
    let mut t = String::from("[");
    push_signed(&mut t, -42);
    t.push(',');
    push_signed(&mut t, 7);
    assert_eq!(t, "[-42,7");
    let mut u = String::new();
    push_signed(&mut u, i64::MIN);
    assert_eq!(u, i64::MIN.to_string());
}

#[test]
fn truncate_cuts_with_ellipsis() {
    assert_eq!(truncate("hello world", 5), "hell…");
    assert_eq!(truncate("abc", 3), "abc");
    assert_eq!(truncate("abc", 10), "abc");
    assert_eq!(truncate("abc", 0), "");
    assert_eq!(truncate("abcd", 1), "…");
}

#[test]
fn truncate_counts_characters_not_bytes() {
    assert_eq!(truncate("héllo", 2), "h…");
    assert_eq!(truncate("héllo", 5), "héllo");
    assert_eq!(truncate("♥♥♥♥", 3), "♥♥…");
}

#[test]
fn truncate_twice_changes_nothing() {
    let once = truncate("a rather long description", 8);
    assert!(once.chars().count() <= 8);
    assert_eq!(truncate(&once, 8), once);
}

#[test]
fn truncate_bytes_keeps_short_text() {
    assert_eq!(truncate_bytes("hello", 10), "hello");
    assert_eq!(truncate_bytes("hello", 5), "hello");
}

#[test]
fn truncate_bytes_cuts_long_text() {
    assert_eq!(truncate_bytes("hello world", 6), "hello…");
    assert_eq!(truncate_bytes("hello", 0), "…");
    assert_eq!(truncate_bytes("hello", 1), "…");
}

#[test]
fn normalise_code_title_cases_words() {
    assert_eq!(normalise_code("wooden_staff"), "Wooden Staff");
    assert_eq!(normalise_code("copper_ore"), "Copper Ore");
    assert_eq!(normalise_code("a__b"), "A  B");
    assert_eq!(normalise_code(""), "");
    assert_eq!(normalise_code("Iron"), "Iron");
}

#[test]
fn normalise_code_uppercases_beyond_ascii() {
    assert_eq!(normalise_code("élan_vital"), "Élan Vital");
    assert_eq!(normalise_code("straße"), "Straße");
}

#[test]
fn endpoint_drops_trailing_slashes() {
    assert_eq!(endpoint("http://localhost:8080/", "/bots"), "http://localhost:8080/bots");
    assert_eq!(endpoint("http://x///", "/a"), "http://x/a");
    assert_eq!(endpoint("http://x", "/a"), "http://x/a");
}

#[test]
fn chars_of_lists_characters() {
    assert_eq!(chars_of("a♥b"), vec!['a', '♥', 'b']);
    assert!(chars_of("").is_empty());
}
