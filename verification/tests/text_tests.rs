use capybara::text::{
    chars_of, contains, decimal_string, format_with_url, remove_md_characters, same_text,
    string_of, truncate_unicode,
};

#[test]
fn chars_and_back_keep_the_text() {
    let text = "héllo 🍊 wörld";
    let chars = chars_of(text);
    assert_eq!(chars.len(), 13);
    assert_eq!(chars[1], 'é');
    assert_eq!(chars[6], '🍊');
    assert_eq!(string_of(&chars), text);
    assert_eq!(string_of(&chars_of("")), "");
}

#[test]
fn same_text_compares_characters() {
    assert!(same_text("play", "play"));
    assert!(!same_text("play", "Play"));
    assert!(!same_text("play", "plays"));
    assert!(same_text("", ""));
}

#[test]
fn decimal_string_writes_base_ten() {
    assert_eq!(decimal_string(0), "0");
    assert_eq!(decimal_string(7), "7");
    assert_eq!(decimal_string(10), "10");
    assert_eq!(decimal_string(1234567890), "1234567890");
    assert_eq!(decimal_string(u64::MAX as u128), "18446744073709551615");
    assert_eq!(decimal_string(u128::MAX), "340282366920938463463374607431768211455");
}

#[test]
fn remove_md_characters_escapes_each_of_the_eight() {
    assert_eq!(
        remove_md_characters("a_b*c~d`e>f<g[h]i"),
        "a\\_b\\*c\\~d\\`e\\>f\\<g\\[h\\]i"
    );
}

#[test]
fn remove_md_characters_leaves_plain_text_alone() {
    assert_eq!(remove_md_characters("Plain title - 2nd (live)"), "Plain title - 2nd (live)");
    assert_eq!(remove_md_characters(""), "");
    assert_eq!(remove_md_characters("back\\slash"), "back\\slash");
    assert_eq!(remove_md_characters("héllo 🍊"), "héllo 🍊");
}

#[test]
fn remove_md_characters_escapes_repeats() {
    assert_eq!(remove_md_characters("__bold__"), "\\_\\_bold\\_\\_");
    assert_eq!(remove_md_characters("[x](y)"), "\\[x\\](y)");
}

#[test]
fn remove_md_characters_agrees_with_chained_replace() {
    let samples = ["a_b", "*~`", "<<>>", "[[]]", "no specials", "_*~`><[]", "mixed _ and \\ and *"];
    for s in samples {
        let expected = s
            .replace('_', "\\_")
            .replace('*', "\\*")
            .replace('~', "\\~")
            .replace('`', "\\`")
            .replace('>', "\\>")
            .replace('<', "\\<")
            .replace('[', "\\[")
            .replace(']', "\\]");
        assert_eq!(remove_md_characters(s), expected);
    }
}

#[test]
fn truncate_unicode_keeps_short_text() {
    assert_eq!(truncate_unicode("short", 37), "short");
    assert_eq!(truncate_unicode("exact", 5), "exact");
    assert_eq!(truncate_unicode("", 0), "");
}

#[test]
fn truncate_unicode_cuts_by_characters() {
    assert_eq!(truncate_unicode("héllo wörld", 5), "héllo...");
    assert_eq!(truncate_unicode("🍊🍊🍊🍊", 2), "🍊🍊...");
    assert_eq!(truncate_unicode("abc", 0), "...");
    assert_eq!(truncate_unicode("abcdef", 5), "abcde...");
}

#[test]
fn truncate_unicode_at_the_listing_widths() {
    let long: String = std::iter::repeat('x').take(80).collect();
    let cut37 = truncate_unicode(&long, 37);
    assert_eq!(cut37.chars().count(), 40);
    assert!(cut37.ends_with("..."));
    let cut67 = truncate_unicode(&long, 67);
    assert_eq!(cut67.chars().count(), 70);
}

#[test]
fn format_with_url_links_a_title() {
    let url = "https://x/track".to_string();
    assert_eq!(format_with_url("Title".to_string(), Some(&url)), "[Title](https://x/track)");
}

#[test]
fn format_with_url_without_address_is_the_title() {
    assert_eq!(format_with_url("Title".to_string(), None), "Title");
}

#[test]
fn contains_finds_a_needle_anywhere() {
    assert!(contains("https://x/track", "https://"));
    assert!(contains("see https://x", "https://"));
    assert!(contains("ends with https://", "https://"));
    assert!(!contains("http://x/track", "https://"));
    assert!(!contains("https:/", "https://"));
    assert!(!contains("", "https://"));
    assert!(contains("anything", ""));
    assert!(contains("", ""));
    assert!(contains("aab", "ab"));
}
