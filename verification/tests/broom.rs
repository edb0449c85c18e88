//! End-to-end orchestrator scenarios, driven without any external tool.

use git_broom::broom::{Broom, BroomError, Message, PromptTokens, Request, RunConfiguration};

fn tokens() -> PromptTokens {
    PromptTokens { all: 'a', selected: 's', yes: 'y' }
}

fn config(branch: Option<&str>, dry_run: bool, include_protected: bool) -> RunConfiguration {
    RunConfiguration {
        repository: None,
        explicit_branch: branch.map(String::from),
        dry_run,
        include_protected,
    }
}

/// Drives a session through the pre-flight probes and branch resolution.
fn start(cfg: RunConfiguration, protection: Option<&str>) -> Broom {
    let mut b = Broom::new(cfg, tokens());
    assert!(matches!(b.next_request(), Request::ProbeTool));
    b.on_tool_status(true);
    assert!(matches!(b.next_request(), Request::ProbeRepository));
    b.on_repo_status(true);
    assert!(matches!(b.next_request(), Request::QueryProtectionConfig));
    b.on_protection_config(protection.map(String::from));
    b
}

#[test]
fn failing_tool_probe_is_fatal() {
    let mut b = Broom::new(config(Some("main"), false, false), tokens());
    b.on_tool_status(false);
    assert!(b.is_finished());
    assert_eq!(b.failure(), Some(BroomError::ToolUnavailable));
    assert!(matches!(b.next_request(), Request::Idle));
}

#[test]
fn failing_repository_probe_is_fatal() {
    let mut b = Broom::new(config(Some("main"), false, false), tokens());
    b.on_tool_status(true);
    b.on_repo_status(false);
    assert!(b.is_finished());
    assert_eq!(b.failure(), Some(BroomError::NotARepository));
}

#[test]
fn explicit_branch_is_trimmed() {
    let b = start(config(Some("  main  "), false, false), None);
    match b.next_request() {
        Request::QueryMergedBranches { working } => assert_eq!(working, "main"),
        _ => panic!("expected the merged-branch query"),
    }
}

#[test]
fn empty_current_branch_is_fatal() {
    let mut b = Broom::new(config(None, false, false), tokens());
    b.on_tool_status(true);
    b.on_repo_status(true);
    assert!(matches!(b.next_request(), Request::QueryCurrentBranch));
    b.on_current_branch("   \n");
    assert!(b.is_finished());
    assert_eq!(b.failure(), Some(BroomError::NoValidBranch));
}

#[test]
fn current_branch_is_resolved_when_no_explicit_branch() {
    let mut b = Broom::new(config(None, false, false), tokens());
    b.on_tool_status(true);
    b.on_repo_status(true);
    b.on_current_branch("develop\n");
    b.on_protection_config(None);
    match b.next_request() {
        Request::QueryMergedBranches { working } => assert_eq!(working, "develop"),
        _ => panic!("expected the merged-branch query"),
    }
}

#[test]
fn empty_candidate_list_reports_no_merged_branch_and_never_deletes() {
    let mut b = start(config(Some("main"), false, false), None);
    let msgs = b.on_merged_output("");
    assert_eq!(msgs.len(), 1);
    match &msgs[0] {
        Message::NoMergedBranch { working } => assert_eq!(working, "main"),
        _ => panic!("expected the no-merged-branch notice"),
    }
    assert!(b.is_finished());
    assert_eq!(b.failure(), None);
    assert_eq!(b.outcomes().len(), 0);
    assert!(matches!(b.next_request(), Request::Idle));
}

#[test]
fn working_branch_and_marker_line_are_never_candidates() {
    let mut b = start(config(Some("main"), false, false), None);
    let msgs = b.on_merged_output("  main\n* checked-out\nfeature/a\n");
    let mut listed: Vec<String> = Vec::new();
    for m in &msgs {
        if let Message::CandidateListed { name, .. } = m {
            listed.push(name.clone());
        }
    }
    assert_eq!(listed, vec![String::from("feature/a")]);
}

#[test]
fn dry_run_lists_candidates_and_never_prompts_or_deletes() {
    let mut b = start(config(Some("main"), true, false), None);
    let msgs = b.on_merged_output("feature/a\nfeature/b\n");
    assert!(b.is_finished());
    assert_eq!(b.failure(), None);
    assert_eq!(b.outcomes().len(), 0);
    assert!(matches!(b.next_request(), Request::Idle));
    let count = msgs
        .iter()
        .filter(|m| matches!(m, Message::CandidateListed { .. }))
        .count();
    assert_eq!(count, 2);
}

#[test]
fn bulk_mode_skips_protected_candidates() {
    let mut b = start(config(Some("main"), false, false), Some("release/.*"));
    let msgs = b.on_merged_output("feature/a\nrelease/1.0\n");
    let mut shielded: Vec<String> = Vec::new();
    for m in &msgs {
        if let Message::ProtectedListed { name } = m {
            shielded.push(name.clone());
        }
    }
    assert_eq!(shielded, vec![String::from("release/1.0")]);
    assert!(matches!(b.next_request(), Request::PromptModeChoice));
    let mode_msgs = b.on_mode_input(Some('a'));
    assert_eq!(mode_msgs.len(), 0);
    match b.next_request() {
        Request::DeleteBranch { name } => assert_eq!(name, "feature/a"),
        _ => panic!("expected one deletion request"),
    }
    let del_msgs = b.on_delete_result(true);
    assert!(matches!(&del_msgs[0], Message::BranchDeleted { name } if name == "feature/a"));
    assert!(b.is_finished());
    let outcomes = b.outcomes();
    assert_eq!(outcomes.len(), 1);
    assert_eq!(outcomes[0].branch.name, "feature/a");
    assert!(outcomes[0].deleted);
}

#[test]
fn bulk_mode_with_include_protected_may_delete_protected() {
    let mut b = start(config(Some("main"), false, true), Some("release/.*"));
    let msgs = b.on_merged_output("feature/a\nrelease/1.0\n");
    let flagged = msgs.iter().any(
        |m| matches!(m, Message::CandidateListed { name, protected } if name == "release/1.0" && *protected),
    );
    assert!(flagged);
    b.on_mode_input(Some('a'));
    match b.next_request() {
        Request::DeleteBranch { name } => assert_eq!(name, "feature/a"),
        _ => panic!("expected a deletion request"),
    }
    b.on_delete_result(true);
    match b.next_request() {
        Request::DeleteBranch { name } => assert_eq!(name, "release/1.0"),
        _ => panic!("expected a second deletion request"),
    }
    b.on_delete_result(true);
    assert!(b.is_finished());
    assert_eq!(b.outcomes().len(), 2);
}

#[test]
fn selected_mode_keeps_only_answered_yes() {
    let mut b = start(config(Some("main"), false, false), None);
    b.on_merged_output("x\ny\n");
    b.on_mode_input(Some('s'));
    match b.next_request() {
        Request::PromptBranchAnswer { name, protected } => {
            assert_eq!(name, "x");
            assert!(!protected);
        },
        _ => panic!("expected the first per-branch prompt"),
    }
    let first = b.on_branch_answer(Some('y'));
    assert_eq!(first.len(), 0);
    match b.next_request() {
        Request::PromptBranchAnswer { name, .. } => assert_eq!(name, "y"),
        _ => panic!("expected the second per-branch prompt"),
    }
    let second = b.on_branch_answer(Some('n'));
    assert!(matches!(&second[0], Message::BranchSkipped { name } if name == "y"));
    match b.next_request() {
        Request::DeleteBranch { name } => assert_eq!(name, "x"),
        _ => panic!("expected the deletion of the accepted branch"),
    }
    b.on_delete_result(true);
    assert!(b.is_finished());
    let outcomes = b.outcomes();
    assert_eq!(outcomes.len(), 1);
    assert_eq!(outcomes[0].branch.name, "x");
}

#[test]
fn unrecognized_mode_input_deletes_nothing() {
    let mut b = start(config(Some("main"), false, false), None);
    b.on_merged_output("x\ny\n");
    let msgs = b.on_mode_input(Some('q'));
    assert!(matches!(msgs[0], Message::NoBranchDeleted));
    assert!(b.is_finished());
    assert_eq!(b.outcomes().len(), 0);
}

#[test]
fn one_failed_deletion_does_not_stop_the_batch() {
    let mut b = start(config(Some("main"), false, false), None);
    b.on_merged_output("x\ny\n");
    b.on_mode_input(Some('a'));
    let first = b.on_delete_result(false);
    assert!(matches!(&first[0], Message::BranchCannotBeDeleted { name } if name == "x"));
    assert!(!b.is_finished());
    match b.next_request() {
        Request::DeleteBranch { name } => assert_eq!(name, "y"),
        _ => panic!("expected the second deletion attempt"),
    }
    let second = b.on_delete_result(true);
    assert!(matches!(&second[0], Message::BranchDeleted { name } if name == "y"));
    assert!(b.is_finished());
    let outcomes = b.outcomes();
    assert_eq!(outcomes.len(), 2);
    assert_eq!(outcomes[0].branch.name, "x");
    assert!(!outcomes[0].deleted);
    assert_eq!(outcomes[1].branch.name, "y");
    assert!(outcomes[1].deleted);
}

#[test]
fn report_lists_protected_block_before_deletable_block() {
    let mut b = start(config(Some("main"), true, false), Some("release/.*"));
    let msgs = b.on_merged_output("release/1.0\nfeature/a\n");
    assert_eq!(msgs.len(), 5);
    assert!(
        matches!(&msgs[0], Message::FoundMergedProtected { count, working } if *count == 1 && working == "main"),
    );
    assert!(matches!(&msgs[1], Message::ProtectedListed { name } if name == "release/1.0"));
    assert!(matches!(&msgs[2], Message::WontBeDeleted { count } if *count == 1));
    assert!(
        matches!(&msgs[3], Message::FoundMerged { count, working } if *count == 1 && working == "main"),
    );
    assert!(
        matches!(&msgs[4], Message::CandidateListed { name, protected } if name == "feature/a" && !*protected),
    );
}

#[test]
fn all_protected_reports_them_and_no_merged_branch() {
    let mut b = start(config(Some("main"), false, false), Some("release/.*"));
    let msgs = b.on_merged_output("release/1.0\nrelease/2.0\n");
    let wont = msgs
        .iter()
        .any(|m| matches!(m, Message::WontBeDeleted { count } if *count == 2));
    assert!(wont);
    let none_left = msgs.iter().any(|m| matches!(m, Message::NoMergedBranch { .. }));
    assert!(none_left);
    assert!(b.is_finished());
    assert_eq!(b.outcomes().len(), 0);
}
