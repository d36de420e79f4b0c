use rspacefs_csi::text;

#[test]
fn letters_are_lowered_in_ascii_alone() {
    assert_eq!(text::to_lower("ABC-Ä z"), "abc-Ä z");
    assert!(text::same_ignoring_case("SHA256:AB", "sha256:ab"));
    assert!(!text::same_ignoring_case("Ä", "ä"));
    assert!(text::same("a", "a"));
    assert!(!text::same("a", "A"));
}

#[test]
fn characters_are_found_by_position() {
    assert_eq!(text::find("äb/c/", '/'), Some(2));
    assert_eq!(text::rfind("äb/c/", '/'), Some(4));
    assert_eq!(text::find("abc", '/'), None);
    assert_eq!(text::rfind("", '/'), None);
    assert!(text::has_char("a?b", '?'));
    assert!(!text::has_char("ab", '?'));
    assert_eq!(text::before("äbc", 2), "äb");
    assert_eq!(text::after("äbc", 2), "c");
    assert!(text::starts_with("http://x", "http://"));
    assert!(!text::starts_with("http", "http://"));
}

#[test]
fn white_space_is_trimmed() {
    assert_eq!(text::trim(" \t a b\u{2003}\n"), "a b");
    assert_eq!(text::trim(" \u{3000} "), "");
    assert_eq!(text::trim("x"), "x");
}

#[test]
fn lists_are_split_and_joined() {
    let l = text::split_items("a, b\nc,,\t");
    assert_eq!(l, ["a", "b", "c"]);
    assert_eq!(text::join(&l, ","), "a,b,c");
    assert_eq!(text::split_items(&text::join(&l, ",")), l);
    assert_eq!(text::join(&vec![], ","), "");
    assert_eq!(text::clone_texts(&l), l);
    assert_eq!(
        text::extend_texts(vec!["z".to_string()], &l),
        ["z", "a", "b", "c"]
    );
}

#[test]
fn characters_are_replaced_and_numbers_written() {
    assert_eq!(text::replace_char("a:b:c", ':', '-'), "a-b-c");
    assert_eq!(text::to_decimal(0), "0");
    assert_eq!(text::to_decimal(10203), "10203");
    assert_eq!(text::to_decimal(u64::MAX), u64::MAX.to_string());
}
