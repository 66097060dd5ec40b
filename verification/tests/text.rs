use companion_core::text::{find_char, join2, join3, same_text, slice, strip_suffix, trim_start};

#[test]
fn same_text_compares_characters() {
    assert!(same_text("", ""));
    assert!(same_text("placeholder.png", "placeholder.png"));
    assert!(!same_text("placeholder.png", "Placeholder.png"));
    assert!(!same_text("a", "ab"));
}

#[test]
fn join_puts_texts_in_a_row() {
    assert_eq!(join2("Erreur: ", "é"), "Erreur: é");
    assert_eq!(join2("", ""), "");
    assert_eq!(join3("a", "_", "b"), "a_b");
}

#[test]
fn slice_counts_characters() {
    assert_eq!(slice("héllo", 1, 3), "él");
    assert_eq!(slice("héllo", 0, 5), "héllo");
    assert_eq!(slice("héllo", 5, 5), "");
}

#[test]
fn find_char_gives_the_first_position() {
    assert_eq!(find_char("a_b_c", '_'), Some(1));
    assert_eq!(find_char("é_b", '_'), Some(1));
    assert_eq!(find_char("_", '_'), Some(0));
    assert_eq!(find_char("abc", '_'), None);
    assert_eq!(find_char("", '_'), None);
}

#[test]
fn trim_start_removes_the_leading_run() {
    assert_eq!(trim_start("//a/b", '/'), "a/b");
    assert_eq!(trim_start("a/b", '/'), "a/b");
    assert_eq!(trim_start("///", '/'), "");
    assert_eq!(trim_start("", '/'), "");
}

#[test]
fn strip_suffix_needs_the_suffix_at_the_end() {
    assert_eq!(strip_suffix("a_b.json", ".json"), Some("a_b".to_string()));
    assert_eq!(strip_suffix(".json", ".json"), Some(String::new()));
    assert_eq!(strip_suffix("a.json.bak", ".json"), None);
    assert_eq!(strip_suffix("son", ".json"), None);
    assert_eq!(strip_suffix("été.json", ".json"), Some("été".to_string()));
}
