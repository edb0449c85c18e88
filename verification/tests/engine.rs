//! Decision engine tests: mode resolution and per-branch confirmation.

use git_broom::classify::{classify, partition, Branch};
use git_broom::engine::{resolve_mode, DecisionEngine, ModeChoice};
use git_broom::patterns::load_protection_patterns;

fn branch(name: &str, protected: bool) -> Branch {
    Branch { name: String::from(name), protected }
}

#[test]
fn unrecognized_mode_input_resolves_to_none() {
    assert_eq!(resolve_mode(Some('q'), 'a', 's'), ModeChoice::DeleteNone);
    assert_eq!(resolve_mode(None, 'a', 's'), ModeChoice::DeleteNone);
    assert_eq!(resolve_mode(Some('a'), 'a', 's'), ModeChoice::DeleteAll);
    assert_eq!(resolve_mode(Some('s'), 'a', 's'), ModeChoice::DeleteSelected);
}

#[test]
fn colliding_tokens_resolve_to_bulk_deletion() {
    assert_eq!(resolve_mode(Some('x'), 'x', 'x'), ModeChoice::DeleteAll);
}

#[test]
fn unrecognized_mode_input_yields_empty_selection() {
    let mut engine = DecisionEngine::new(vec![branch("x", false), branch("y", false)]);
    engine.choose_mode(Some('q'), 'a', 's');
    assert!(engine.is_done());
    assert_eq!(engine.into_selection().len(), 0);
}

#[test]
fn absent_mode_input_yields_empty_selection() {
    let mut engine = DecisionEngine::new(vec![branch("x", false)]);
    engine.choose_mode(None, 'a', 's');
    assert!(engine.is_done());
    assert_eq!(engine.into_selection().len(), 0);
}

#[test]
fn non_yes_answer_excludes_the_branch() {
    let mut engine = DecisionEngine::new(vec![branch("x", false), branch("y", false)]);
    engine.choose_mode(Some('s'), 'a', 's');
    assert!(!engine.is_done());
    engine.answer(Some('n'), 'y');
    engine.answer(None, 'y');
    assert!(engine.is_done());
    assert_eq!(engine.into_selection().len(), 0);
}

#[test]
fn all_mode_selects_only_the_deletable_candidates() {
    let patterns = load_protection_patterns(&Some(String::from("release/.*")));
    let names = vec![String::from("feature/a"), String::from("release/1.0")];
    let branches = classify(&names, &patterns);
    let (_shielded, deletable) = partition(&branches, false);

    let mut engine = DecisionEngine::new(deletable);
    engine.choose_mode(Some('a'), 'a', 's');
    assert!(engine.is_done());
    let selection = engine.into_selection();
    assert_eq!(selection.len(), 1);
    assert_eq!(selection[0].name, "feature/a");
}

#[test]
fn selected_mode_keeps_only_accepted_branches() {
    let mut engine = DecisionEngine::new(vec![branch("x", false), branch("y", false)]);
    engine.choose_mode(Some('s'), 'a', 's');
    let first = engine.prompt_subject();
    assert_eq!(first.name, "x");
    engine.answer(Some('y'), 'y');
    let second = engine.prompt_subject();
    assert_eq!(second.name, "y");
    engine.answer(Some('n'), 'y');
    assert!(engine.is_done());
    let selection = engine.into_selection();
    assert_eq!(selection.len(), 1);
    assert_eq!(selection[0].name, "x");
}

#[test]
fn include_protected_makes_protected_branches_selectable() {
    let patterns = load_protection_patterns(&Some(String::from("release/.*")));
    let names = vec![String::from("feature/a"), String::from("release/1.0")];
    let branches = classify(&names, &patterns);
    let (shielded, deletable) = partition(&branches, true);
    assert_eq!(shielded.len(), 0);

    let mut engine = DecisionEngine::new(deletable);
    engine.choose_mode(Some('a'), 'a', 's');
    let selection = engine.into_selection();
    assert_eq!(selection.len(), 2);
    assert!(selection.iter().any(|b| b.name == "release/1.0" && b.protected));
}
