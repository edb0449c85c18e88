//! Deletion executor tests.

use git_broom::classify::Branch;
use git_broom::executor::Executor;

fn branch(name: &str) -> Branch {
    Branch { name: String::from(name), protected: false }
}

#[test]
fn executor_attempts_every_target_in_order() {
    let mut ex = Executor::new(vec![branch("x"), branch("y")]);
    assert!(!ex.is_done());
    assert_eq!(ex.next_target().name, "x");
    ex.record(false);
    assert!(!ex.is_done());
    assert_eq!(ex.next_target().name, "y");
    ex.record(true);
    assert!(ex.is_done());
    let outcomes = ex.outcomes();
    assert_eq!(outcomes.len(), 2);
    assert_eq!(outcomes[0].branch.name, "x");
    assert!(!outcomes[0].deleted);
    assert_eq!(outcomes[1].branch.name, "y");
    assert!(outcomes[1].deleted);
}

#[test]
fn executor_with_no_targets_is_immediately_done() {
    let ex = Executor::new(Vec::new());
    assert!(ex.is_done());
    assert_eq!(ex.outcomes().len(), 0);
}
