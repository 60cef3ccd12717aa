use mdex_native::text::{contains_text, replace_all, same_text};

#[test]
fn replaces_every_occurrence_from_the_left() {
    assert_eq!(replace_all("aaa", "aa", "b"), "aaa".replace("aa", "b"));
    assert_eq!(replace_all("x{y}{", "{", "&lbrace;"), "x&lbrace;y}&lbrace;");
    assert_eq!(replace_all("", "a", "b"), "");
}

#[test]
fn compares_and_searches_text() {
    assert!(same_text("théme", "théme"));
    assert!(!same_text("theme", "them"));
    assert!(contains_text("github_light", "light"));
    assert!(contains_text("anything", ""));
    assert!(!contains_text("lig", "light"));
}
