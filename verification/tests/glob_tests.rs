use kv_store::glob::glob_match;

#[test]
fn star_matches_everything() {
    assert!(glob_match("*", ""));
    assert!(glob_match("*", "x"));
    assert!(glob_match("*", "a longer key"));
}

#[test]
fn literal_pattern_matches_itself_only() {
    assert!(glob_match("alpha", "alpha"));
    assert!(!glob_match("alpha", "alphabet"));
    assert!(!glob_match("alpha", "alph"));
    assert!(!glob_match("alpha", ""));
}

#[test]
fn question_mark_matches_one_character() {
    assert!(glob_match("a?c", "abc"));
    assert!(glob_match("a?c", "axc"));
    assert!(!glob_match("a?c", "ac"));
    assert!(!glob_match("a?c", "abbc"));
}

#[test]
fn star_in_the_middle() {
    assert!(glob_match("user:*:name", "user:42:name"));
    assert!(glob_match("user:*:name", "user::name"));
    assert!(!glob_match("user:*:name", "user:42:age"));
}

#[test]
fn empty_pattern_matches_empty_key_only() {
    assert!(glob_match("", ""));
    assert!(!glob_match("", "x"));
}

#[test]
fn several_stars() {
    assert!(glob_match("*a*b*", "xxaxxbxx"));
    assert!(!glob_match("*a*b*", "xxbxxaxx-without"));
}
