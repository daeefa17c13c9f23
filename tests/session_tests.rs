use std::collections::BTreeMap;

use git_qsync::error::QSyncError;
use git_qsync::inspect::HeadState;
use git_qsync::session::{Action, ConflictChoice, ImportSession, RefSnapshot, Response};

/// A repository simulated in memory: branches with their tip commits and
/// the branch HEAD is on.
#[derive(Debug, Clone, PartialEq)]
struct FakeRepo {
    branches: BTreeMap<String, String>,
    head: Option<String>,
    parents: BTreeMap<String, String>,
    remote_head: Option<String>,
    refuse_checkout: Vec<String>,
}

/// A bundle: the branch it carries and its tip.
struct FakeBundle {
    branch: String,
    tip: String,
}

/// The answers the user gives.
struct Answers {
    choice: ConflictChoice,
    confirm: bool,
}

impl FakeRepo {
    fn new(branches: &[(&str, &str)], head: &str) -> FakeRepo {
        FakeRepo {
            branches: branches.iter().map(|(b, c)| (b.to_string(), c.to_string())).collect(),
            head: Some(head.to_string()),
            parents: BTreeMap::new(),
            remote_head: None,
            refuse_checkout: Vec::new(),
        }
    }

    fn head_commit(&self) -> Option<String> {
        self.head.as_ref().and_then(|h| self.branches.get(h).cloned())
    }

    fn snapshot(&self) -> RefSnapshot {
        let head = match &self.head {
            Some(h) if self.branches.contains_key(h) => {
                HeadState::Symbolic { name: format!("refs/heads/{}", h) }
            },
            Some(_) => HeadState::Unborn,
            None => HeadState::Detached,
        };
        RefSnapshot {
            head,
            local_branches: self.branches.keys().cloned().collect(),
            remote_head: self.remote_head.clone(),
        }
    }

    fn failed(message: &str) -> Response {
        Response::Failed { message: message.to_string() }
    }

    fn ok() -> Response {
        Response::Succeeded { output: String::new() }
    }

    fn perform(&mut self, action: &Action, bundle: &FakeBundle, answers: &Answers) -> Response {
        match action {
            Action::VerifyBundle => FakeRepo::ok(),
            Action::ListHeads => Response::Succeeded {
                output: format!("{} refs/heads/{}\n", bundle.tip, bundle.branch),
            },
            Action::ReadRefs => Response::Refs { snapshot: self.snapshot() },
            Action::AskResolution { .. } => Response::Chose { choice: answers.choice },
            Action::ConfirmOverwrite { .. } => Response::Confirmed { yes: answers.confirm },
            Action::Checkout { branch } => {
                if self.branches.contains_key(branch) && !self.refuse_checkout.contains(branch) {
                    self.head = Some(branch.clone());
                    FakeRepo::ok()
                } else {
                    FakeRepo::failed("pathspec did not match")
                }
            },
            Action::CreateFromParent { branch } => {
                let parent = self.head_commit().and_then(|c| self.parents.get(&c).cloned());
                match parent {
                    Some(p) if !self.branches.contains_key(branch) => {
                        self.branches.insert(branch.clone(), p);
                        self.head = Some(branch.clone());
                        FakeRepo::ok()
                    },
                    _ => FakeRepo::failed("invalid reference: HEAD~1"),
                }
            },
            Action::CreateOrphan { branch } => {
                if self.branches.contains_key(branch) {
                    FakeRepo::failed("already exists")
                } else {
                    self.head = Some(branch.clone());
                    FakeRepo::ok()
                }
            },
            Action::ClearIndex => FakeRepo::ok(),
            Action::DeleteBranch { branch } => {
                if self.head.as_ref() == Some(branch) {
                    FakeRepo::failed("cannot delete branch checked out")
                } else if self.branches.remove(branch).is_some() {
                    FakeRepo::ok()
                } else {
                    FakeRepo::failed("branch not found")
                }
            },
            Action::Fetch { source, target } => {
                if *source != bundle.branch || self.head.as_ref() == Some(target) {
                    FakeRepo::failed("refusing to fetch")
                } else {
                    self.branches.insert(target.clone(), bundle.tip.clone());
                    FakeRepo::ok()
                }
            },
            Action::Finish { .. } | Action::Abort { .. } => FakeRepo::ok(),
        }
    }

    /// HEAD is on a branch that exists, or on an orphan branch with no commit.
    fn head_attached(&self, orphan: Option<&str>) -> bool {
        match &self.head {
            Some(h) => self.branches.contains_key(h) || orphan == Some(h.as_str()),
            None => false,
        }
    }
}

/// Runs an import to its end; returns the final action and every action asked for.
fn run_import(repo: &mut FakeRepo, bundle: &FakeBundle, answers: &Answers) -> (Action, Vec<Action>) {
    let mut session = ImportSession::new();
    let mut action = session.action();
    let mut seen = Vec::new();
    let mut orphan: Option<String> = None;
    for _ in 0..100 {
        if let Action::Finish { .. } | Action::Abort { .. } = action {
            return (action, seen);
        }
        seen.push(action.clone());
        let response = repo.perform(&action, bundle, answers);
        if let (Action::CreateOrphan { branch }, Response::Succeeded { .. }) = (&action, &response) {
            orphan = Some(branch.clone());
        }
        assert!(repo.head_attached(orphan.as_deref()), "HEAD left its branch after {:?}", action);
        action = session.step(response);
    }
    panic!("the import did not end");
}

fn bundle(branch: &str, tip: &str) -> FakeBundle {
    FakeBundle { branch: branch.to_string(), tip: tip.to_string() }
}

fn temp_branches(repo: &FakeRepo) -> Vec<String> {
    repo.branches.keys().filter(|b| b.starts_with("temp-before-import-")).cloned().collect()
}

#[test]
fn fresh_branch_is_imported_under_its_name() {
    let mut repo = FakeRepo::new(&[("main", "m1")], "main");
    let answers = Answers { choice: ConflictChoice::Cancel, confirm: false };
    let (end, seen) = run_import(&mut repo, &bundle("topic", "t9"), &answers);
    match end {
        Action::Finish { source, branch, leftover } => {
            assert_eq!(source, "topic");
            assert_eq!(branch, "topic");
            assert_eq!(leftover, None);
        },
        other => panic!("expected the import to finish, got {:?}", other),
    }
    assert!(!seen.iter().any(|a| matches!(a, Action::AskResolution { .. })));
    assert_eq!(repo.branches.get("topic").map(String::as_str), Some("t9"));
    assert_eq!(repo.head.as_deref(), Some("topic"));
}

#[test]
fn round_trip_keeps_the_tip() {
    // The exporting side holds `feature` at f3; the importing side has no `feature`.
    let exported_tip = "f3";
    let mut repo = FakeRepo::new(&[("main", "m1")], "main");
    let answers = Answers { choice: ConflictChoice::Cancel, confirm: false };
    let (end, _) = run_import(&mut repo, &bundle("feature", exported_tip), &answers);
    assert!(matches!(end, Action::Finish { .. }));
    assert_eq!(repo.branches.get("feature").map(String::as_str), Some(exported_tip));
}

#[test]
fn conflict_overwrite_replaces_branch() {
    let mut repo = FakeRepo::new(&[("main", "m1"), ("feature", "X")], "main");
    let answers = Answers { choice: ConflictChoice::Overwrite, confirm: true };
    let (end, _) = run_import(&mut repo, &bundle("feature", "Y"), &answers);
    assert!(matches!(end, Action::Finish { leftover: None, .. }));
    assert_eq!(repo.branches.get("feature").map(String::as_str), Some("Y"));
    assert!(temp_branches(&repo).is_empty());
}

#[test]
fn conflict_rename_keeps_branch() {
    let mut repo = FakeRepo::new(&[("main", "m1"), ("feature", "X")], "main");
    let answers = Answers { choice: ConflictChoice::Rename, confirm: false };
    let (end, _) = run_import(&mut repo, &bundle("feature", "Y"), &answers);
    match end {
        Action::Finish { branch, .. } => assert_eq!(branch, "import-feature"),
        other => panic!("expected the import to finish, got {:?}", other),
    }
    assert_eq!(repo.branches.get("feature").map(String::as_str), Some("X"));
    assert_eq!(repo.branches.get("import-feature").map(String::as_str), Some("Y"));
    assert!(temp_branches(&repo).is_empty());
}

#[test]
fn conflict_cancel_changes_nothing() {
    let mut repo = FakeRepo::new(&[("main", "m1"), ("feature", "X")], "feature");
    let before = repo.clone();
    let answers = Answers { choice: ConflictChoice::Cancel, confirm: false };
    let (end, _) = run_import(&mut repo, &bundle("feature", "Y"), &answers);
    assert!(matches!(end, Action::Abort { error: QSyncError::Cancelled }));
    assert_eq!(repo, before);
}

#[test]
fn declined_confirmation_cancels() {
    let mut repo = FakeRepo::new(&[("main", "m1"), ("feature", "X")], "feature");
    let before = repo.clone();
    let answers = Answers { choice: ConflictChoice::Overwrite, confirm: false };
    let (end, seen) = run_import(&mut repo, &bundle("feature", "Y"), &answers);
    assert!(matches!(end, Action::Abort { error: QSyncError::Cancelled }));
    assert!(seen.iter().any(|a| matches!(a, Action::ConfirmOverwrite { .. })));
    assert_eq!(repo, before);
}

#[test]
fn test_delete_branch_safely_not_current() {
    let mut repo = FakeRepo::new(&[("main", "m1"), ("delete-me", "d1")], "main");
    let answers = Answers { choice: ConflictChoice::Overwrite, confirm: true };
    let (end, seen) = run_import(&mut repo, &bundle("delete-me", "d2"), &answers);
    assert!(matches!(end, Action::Finish { .. }));
    let confirm = seen.iter().position(|a| matches!(a, Action::ConfirmOverwrite { .. })).unwrap();
    match &seen[confirm + 1] {
        Action::DeleteBranch { branch } => assert_eq!(branch, "delete-me"),
        other => panic!("expected the branch to be deleted at once, got {:?}", other),
    }
}

#[test]
fn test_delete_branch_safely_currently_checked_out() {
    let mut repo = FakeRepo::new(&[("main", "m1"), ("feature-to-delete", "f1")], "feature-to-delete");
    let answers = Answers { choice: ConflictChoice::Overwrite, confirm: true };
    let (end, seen) = run_import(&mut repo, &bundle("feature-to-delete", "f2"), &answers);
    assert!(matches!(end, Action::Finish { leftover: None, .. }));
    let confirm = seen.iter().position(|a| matches!(a, Action::ConfirmOverwrite { .. })).unwrap();
    match (&seen[confirm + 1], &seen[confirm + 2]) {
        (Action::Checkout { branch: away }, Action::DeleteBranch { branch: deleted }) => {
            assert_eq!(away, "main");
            assert_eq!(deleted, "feature-to-delete");
        },
        other => panic!("expected a switch away before the deletion, got {:?}", other),
    }
    assert_eq!(repo.branches.get("feature-to-delete").map(String::as_str), Some("f2"));
    assert_eq!(repo.head.as_deref(), Some("feature-to-delete"));
}

#[test]
fn detour_prefers_remote_default_branch() {
    let mut repo = FakeRepo::new(&[("alpha", "a1"), ("develop", "d1"), ("feature", "X")], "feature");
    repo.remote_head = Some("refs/remotes/origin/develop".to_string());
    let answers = Answers { choice: ConflictChoice::Overwrite, confirm: true };
    let (_, seen) = run_import(&mut repo, &bundle("feature", "Y"), &answers);
    let first_checkout = seen.iter().find_map(|a| match a {
        Action::Checkout { branch } => Some(branch.clone()),
        _ => None,
    });
    assert_eq!(first_checkout.as_deref(), Some("develop"));
}

#[test]
fn detour_through_temporary_branch() {
    let mut repo = FakeRepo::new(&[("feature", "X")], "feature");
    repo.parents.insert("X".to_string(), "W".to_string());
    let answers = Answers { choice: ConflictChoice::Overwrite, confirm: true };
    let (end, seen) = run_import(&mut repo, &bundle("feature", "Y"), &answers);
    assert!(matches!(end, Action::Finish { leftover: None, .. }));
    assert!(seen.iter().any(|a| matches!(a, Action::CreateFromParent { branch } if branch == "temp-before-import-feature")));
    assert_eq!(repo.branches.get("feature").map(String::as_str), Some("Y"));
    assert!(temp_branches(&repo).is_empty());
    assert_eq!(repo.head.as_deref(), Some("feature"));
}

#[test]
fn detour_through_orphan_branch() {
    let mut repo = FakeRepo::new(&[("feature", "X")], "feature");
    let answers = Answers { choice: ConflictChoice::Overwrite, confirm: true };
    let (end, seen) = run_import(&mut repo, &bundle("feature", "Y"), &answers);
    assert!(matches!(end, Action::Finish { leftover: None, .. }));
    assert!(seen.iter().any(|a| matches!(a, Action::CreateOrphan { .. })));
    assert!(seen.iter().any(|a| matches!(a, Action::ClearIndex)));
    assert_eq!(repo.branches.len(), 1);
    assert_eq!(repo.branches.get("feature").map(String::as_str), Some("Y"));
}

#[test]
fn stale_temporary_branch_is_replaced() {
    let mut repo = FakeRepo::new(&[("feature", "X"), ("temp-before-import-feature", "old")], "feature");
    repo.refuse_checkout.push("temp-before-import-feature".to_string());
    repo.parents.insert("X".to_string(), "W".to_string());
    let answers = Answers { choice: ConflictChoice::Overwrite, confirm: true };
    let (end, seen) = run_import(&mut repo, &bundle("feature", "Y"), &answers);
    assert!(matches!(end, Action::Finish { leftover: None, .. }));
    assert!(seen.iter().any(|a| matches!(a, Action::DeleteBranch { branch } if branch == "temp-before-import-feature")));
    assert!(temp_branches(&repo).is_empty());
}

#[test]
fn overwrite_on_detached_head_fails() {
    let mut repo = FakeRepo::new(&[("main", "m1"), ("feature", "X")], "main");
    repo.head = None;
    let answers = Answers { choice: ConflictChoice::Overwrite, confirm: true };
    let mut session = ImportSession::new();
    let mut action = session.action();
    for _ in 0..10 {
        if let Action::Abort { .. } | Action::Finish { .. } = action {
            break;
        }
        let response = repo.perform(&action, &bundle("feature", "Y"), &answers);
        action = session.step(response);
    }
    assert!(matches!(action, Action::Abort { error: QSyncError::BranchResolutionFailed { .. } }));
    assert_eq!(repo.branches.get("feature").map(String::as_str), Some("X"));
}

#[test]
fn failed_verification_aborts() {
    let mut session = ImportSession::new();
    assert!(matches!(session.action(), Action::VerifyBundle));
    let action = session.step(Response::Failed { message: "not a bundle".to_string() });
    assert!(matches!(action, Action::Abort { error: QSyncError::BundleVerificationFailed }));
    // A finished session stays finished.
    let again = session.step(Response::Succeeded { output: String::new() });
    assert!(matches!(again, Action::Abort { error: QSyncError::BundleVerificationFailed }));
}

#[test]
fn bundle_without_heads_aborts() {
    let mut session = ImportSession::new();
    session.step(Response::Succeeded { output: String::new() });
    let action = session.step(Response::Succeeded { output: String::new() });
    assert!(matches!(action, Action::Abort { error: QSyncError::GitCommandFailed { .. } }));
}

fn session_at_switch(branch: &str) -> (ImportSession, Action) {
    let mut session = ImportSession::new();
    session.step(Response::Succeeded { output: String::new() });
    session.step(Response::Succeeded { output: format!("abc refs/heads/{}\n", branch) });
    let repo = FakeRepo::new(&[("main", "m1")], "main");
    let fetch = session.step(Response::Refs { snapshot: repo.snapshot() });
    assert!(matches!(fetch, Action::Fetch { .. }));
    let switch = session.step(Response::Succeeded { output: String::new() });
    (session, switch)
}

#[test]
fn test_switch_to_branch() {
    let (mut session, switch) = session_at_switch("switch-to-me");
    match switch {
        Action::Checkout { branch } => assert_eq!(branch, "switch-to-me"),
        other => panic!("expected a checkout, got {:?}", other),
    }
    let end = session.step(Response::Succeeded { output: String::new() });
    assert!(matches!(end, Action::Finish { .. }));
}

#[test]
fn test_switch_to_non_existent_branch() {
    let (mut session, _) = session_at_switch("non-existent-branch");
    let end = session.step(Response::Failed { message: "pathspec did not match".to_string() });
    match end {
        Action::Abort { error: QSyncError::GitCommandFailed { message } } => {
            assert!(message.contains("Failed to switch to branch"));
            assert_eq!(
                message,
                "Failed to switch to branch 'non-existent-branch': pathspec did not match"
            );
        },
        other => panic!("Should fail when switching to non-existent branch, got {:?}", other),
    }
}

#[test]
fn test_check_branch_exists_true() {
    let repo = FakeRepo::new(&[("main", "m1"), ("existing-branch", "e1")], "main");
    assert!(repo.snapshot().has_branch("existing-branch"));
}

#[test]
fn test_check_branch_exists_false() {
    let repo = FakeRepo::new(&[("main", "m1")], "main");
    assert!(!repo.snapshot().has_branch("non-existent-branch"));
    let mut with_remote = repo.clone();
    with_remote.remote_head = Some("refs/remotes/origin/non-existent-branch".to_string());
    assert!(!with_remote.snapshot().has_branch("non-existent-branch"));
}

#[test]
fn test_is_branch_checked_out() {
    let repo = FakeRepo::new(&[("main", "m1"), ("test-branch", "t1")], "main");
    let snapshot = repo.snapshot();
    assert!(snapshot.is_checked_out("main").unwrap());
    assert!(!snapshot.is_checked_out("test-branch").unwrap());
    let mut detached = repo.clone();
    detached.head = None;
    assert!(detached.snapshot().is_checked_out("main").is_err());
}

#[test]
fn failed_cleanup_is_reported_not_fatal() {
    let mut session = ImportSession::new();
    let repo = FakeRepo::new(&[("feature", "X")], "feature");
    session.step(Response::Succeeded { output: String::new() });
    session.step(Response::Succeeded { output: "X refs/heads/feature\n".to_string() });
    session.step(Response::Refs { snapshot: repo.snapshot() });
    session.step(Response::Chose { choice: ConflictChoice::Overwrite });
    let create = session.step(Response::Confirmed { yes: true });
    assert!(matches!(create, Action::CreateFromParent { .. }));
    let delete = session.step(Response::Succeeded { output: String::new() });
    assert!(matches!(delete, Action::DeleteBranch { .. }));
    let fetch = session.step(Response::Succeeded { output: String::new() });
    assert!(matches!(fetch, Action::Fetch { .. }));
    let switch = session.step(Response::Succeeded { output: String::new() });
    assert!(matches!(switch, Action::Checkout { .. }));
    let cleanup = session.step(Response::Succeeded { output: String::new() });
    assert!(matches!(cleanup, Action::DeleteBranch { ref branch } if branch == "temp-before-import-feature"));
    let end = session.step(Response::Failed { message: "locked".to_string() });
    match end {
        Action::Finish { branch, leftover, .. } => {
            assert_eq!(branch, "feature");
            assert_eq!(leftover.as_deref(), Some("temp-before-import-feature"));
        },
        other => panic!("expected the import to finish, got {:?}", other),
    }
}

#[test]
fn failed_delete_names_branch_and_git_error() {
    let mut session = ImportSession::new();
    let repo = FakeRepo::new(&[("main", "m1"), ("feature", "X")], "main");
    session.step(Response::Succeeded { output: String::new() });
    session.step(Response::Succeeded { output: "Y refs/heads/feature\n".to_string() });
    session.step(Response::Refs { snapshot: repo.snapshot() });
    session.step(Response::Chose { choice: ConflictChoice::Overwrite });
    let delete = session.step(Response::Confirmed { yes: true });
    assert!(matches!(delete, Action::DeleteBranch { ref branch } if branch == "feature"));
    match session.step(Response::Failed { message: "error: branch not found".to_string() }) {
        Action::Abort { error: QSyncError::GitCommandFailed { message } } => {
            assert_eq!(message, "Failed to delete branch 'feature': error: branch not found")
        },
        other => panic!("expected the import to stop, got {:?}", other),
    }
}

#[test]
fn failed_fetch_carries_git_error() {
    let mut session = ImportSession::new();
    let repo = FakeRepo::new(&[("main", "m1")], "main");
    session.step(Response::Succeeded { output: String::new() });
    session.step(Response::Succeeded { output: "Y refs/heads/topic\n".to_string() });
    let fetch = session.step(Response::Refs { snapshot: repo.snapshot() });
    assert!(matches!(fetch, Action::Fetch { .. }));
    match session.step(Response::Failed { message: "fatal: bad object".to_string() }) {
        Action::Abort { error: QSyncError::GitCommandFailed { message } } => {
            assert_eq!(message, "Failed to import bundle: fatal: bad object")
        },
        other => panic!("expected the import to stop, got {:?}", other),
    }
}
