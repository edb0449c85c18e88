//! Classification and protection-rule tests.

use git_broom::classify::{classify, partition};
use git_broom::patterns::load_protection_patterns;
use git_broom::text::split_on_char;

#[test]
fn classify_keeps_length_and_order() {
    let patterns = load_protection_patterns(&Some(String::from("release/.*,main")));
    let names = vec![
        String::from("feature/a"),
        String::from("release/1.0"),
        String::from("bugfix/b"),
        String::from("main"),
    ];
    let branches = classify(&names, &patterns);
    assert_eq!(branches.len(), names.len());
    for (i, b) in branches.iter().enumerate() {
        assert_eq!(b.name, names[i]);
    }
}

#[test]
fn classify_flags_matching_names_as_protected() {
    let patterns = load_protection_patterns(&Some(String::from("release/.*")));
    let names = vec![String::from("feature/a"), String::from("release/1.0")];
    let branches = classify(&names, &patterns);
    assert!(!branches[0].protected);
    assert!(branches[1].protected);
}

#[test]
fn no_configuration_value_means_nothing_protected() {
    let patterns = load_protection_patterns(&None);
    assert_eq!(patterns.len(), 0);
    let names = vec![String::from("main"), String::from("release/1.0")];
    let branches = classify(&names, &patterns);
    assert!(!branches[0].protected);
    assert!(!branches[1].protected);
}

#[test]
fn invalid_pattern_token_is_dropped_silently() {
    let patterns = load_protection_patterns(&Some(String::from("(,release/.*")));
    assert_eq!(patterns.len(), 1);
    let names = vec![String::from("feature/a"), String::from("release/1.0")];
    let branches = classify(&names, &patterns);
    assert!(!branches[0].protected);
    assert!(branches[1].protected);
}

#[test]
fn empty_configuration_value_is_one_match_all_pattern() {
    let patterns = load_protection_patterns(&Some(String::from("")));
    assert_eq!(patterns.len(), 1);
    let names = vec![String::from("anything")];
    let branches = classify(&names, &patterns);
    assert!(branches[0].protected);
}

#[test]
fn partition_excludes_protected_unless_included() {
    let patterns = load_protection_patterns(&Some(String::from("release/.*")));
    let names = vec![String::from("feature/a"), String::from("release/1.0")];
    let branches = classify(&names, &patterns);

    let (shielded, deletable) = partition(&branches, false);
    assert_eq!(shielded.len(), 1);
    assert_eq!(shielded[0].name, "release/1.0");
    assert_eq!(deletable.len(), 1);
    assert_eq!(deletable[0].name, "feature/a");

    let (shielded_all, deletable_all) = partition(&branches, true);
    assert_eq!(shielded_all.len(), 0);
    assert_eq!(deletable_all.len(), 2);
}

#[test]
fn split_on_char_keeps_every_token() {
    let tokens = split_on_char("a,b,,c", ',');
    assert_eq!(tokens, vec!["a", "b", "", "c"]);
    let single = split_on_char("plain", ',');
    assert_eq!(single, vec!["plain"]);
    let empty = split_on_char("", ',');
    assert_eq!(empty, vec![""]);
}
