//! The import session: the decisions of an import, one step per answer from
//! git or from the user.
//!
//! The caller performs each `Action` (runs the git command, reads the refs,
//! asks the user) and hands back what came of it as a `Response`; the
//! session decides the next action until it finishes or aborts. Replacing a
//! branch that is checked out first moves HEAD to another branch (the
//! default branch, any other local branch, or a temporary one) before the
//! branch is deleted.
use vstd::prelude::*;
use crate::error::QSyncError;
use crate::inspect::{branch_of_head, bundle_branch, current_branch, extract_branch_name, remote_default_branch, remote_head_branch, HeadState};
use crate::names::{detour_name, renamed_import, import_branch_name, strip_prefix_of, temp_branch_name};

verus! {

/// What the user picks when the bundle's branch already exists locally.
#[derive(Debug, Clone, Copy, PartialEq, Eq, Structural)]
pub enum ConflictChoice {
    /// Replace the local branch with the bundle's.
    Overwrite,
    /// Keep the local branch and import under a derived name.
    Rename,
    /// Stop the import.
    Cancel,
}

/// The refs that an import decides on, as read from the repository.
#[derive(Debug, Clone)]
pub struct RefSnapshot {
    /// What HEAD points at.
    pub head: HeadState,
    /// The local branches, by short name, in the order the repository lists them.
    pub local_branches: Vec<String>,
    /// The full name that `refs/remotes/origin/HEAD` points at, where it is
    /// a symbolic reference.
    pub remote_head: Option<String>,
}

/// What came of an action.
#[derive(Debug, Clone)]
pub enum Response {
    /// The command exited with success; its standard output.
    Succeeded { output: String },
    /// The command exited with failure; its standard error.
    Failed { message: String },
    /// The refs, for `Action::ReadRefs`.
    Refs { snapshot: RefSnapshot },
    /// The user's choice, for `Action::AskResolution`.
    Chose { choice: ConflictChoice },
    /// The user's answer, for `Action::ConfirmOverwrite`.
    Confirmed { yes: bool },
}

/// What the caller is to do next.
#[derive(Debug, Clone)]
pub enum Action {
    /// Run `git bundle verify` on the bundle.
    VerifyBundle,
    /// Run `git bundle list-heads` on the bundle.
    ListHeads,
    /// Read the refs and answer with `Response::Refs`.
    ReadRefs,
    /// Ask how to resolve the clash with the existing `branch`.
    AskResolution { branch: String },
    /// Ask the user to confirm that `branch` is to be overwritten.
    ConfirmOverwrite { branch: String },
    /// Run `git checkout <branch>`.
    Checkout { branch: String },
    /// Run `git checkout -b <branch> HEAD~1`.
    CreateFromParent { branch: String },
    /// Run `git checkout --orphan <branch>`.
    CreateOrphan { branch: String },
    /// Run `git reset --hard`; its outcome does not matter.
    ClearIndex,
    /// Run `git branch -D <branch>`.
    DeleteBranch { branch: String },
    /// Run `git fetch <bundle> refs/heads/<source>:refs/heads/<target>`.
    Fetch { source: String, target: String },
    /// The import is complete: `source` was imported as `branch`;
    /// `leftover` names a temporary branch that could not be removed.
    Finish { source: String, branch: String, leftover: Option<String> },
    /// The import stops with `error`.
    Abort { error: QSyncError },
}

/// The failures an import can end with, by kind.
#[derive(Debug, Clone, Copy, PartialEq, Eq, Structural)]
pub enum FailureKind {
    /// The bundle did not verify.
    Verification,
    /// A git command failed or answered unexpectedly.
    Command,
    /// HEAD could not be moved off the branch to replace, or is not on a branch.
    Resolution,
    /// The user cancelled.
    Cancelled,
}

/// Where a session stands: the action it waits on, or its end.
#[derive(Debug, Clone, Copy, PartialEq, Eq, Structural)]
pub enum Phase {
    /// Waiting on the bundle's verification.
    Verifying,
    /// Waiting on the list of the bundle's heads.
    ListingHeads,
    /// Waiting on the repository's refs.
    ReadingRefs,
    /// Waiting on the user's choice between overwrite, rename and cancel.
    Choosing,
    /// Waiting on the confirmation of an overwrite.
    Confirming,
    /// Moving HEAD to the next candidate branch.
    SwitchingAway,
    /// Removing a temporary branch left by an earlier import.
    DeletingStaleTemp,
    /// Moving HEAD to a new temporary branch at its parent.
    CreatingTemp,
    /// Moving HEAD to a new orphan branch.
    CreatingOrphan,
    /// Clearing the index of the orphan branch.
    ClearingIndex,
    /// Deleting the branch to overwrite.
    DeletingTarget,
    /// Fetching the bundle's branch.
    Fetching,
    /// Checking out the imported branch.
    SwitchingToTarget,
    /// Removing the temporary branch.
    CleaningUp,
    /// The import is complete.
    Done,
    /// The import stopped.
    Failed { kind: FailureKind },
}

/// How HEAD was parked while the branch to replace was deleted.
#[derive(Debug, Clone, Copy, PartialEq, Eq, Structural)]
pub enum TempKind {
    /// No temporary branch was made.
    NoTemp,
    /// A temporary branch was made at the parent of HEAD.
    FromParent,
    /// An orphan branch was made, which has no commit and vanishes once HEAD leaves it.
    Orphan,
}

/// The kind of an error.
pub open spec fn kind_of(e: QSyncError) -> FailureKind {
    match e {
        QSyncError::BundleVerificationFailed => FailureKind::Verification,
        QSyncError::BranchResolutionFailed { .. } => FailureKind::Resolution,
        QSyncError::Cancelled => FailureKind::Cancelled,
        _ => FailureKind::Command,
    }
}

/// A session in mathematical terms.
pub struct SessionView {
    pub phase: Phase,
    /// The branch that the bundle carries.
    pub branch: Seq<char>,
    /// The local name it is imported under.
    pub target: Seq<char>,
    /// The name of the temporary branch.
    pub temp: Seq<char>,
    /// The branches to try, in order, when HEAD must leave the target.
    pub candidates: Seq<Seq<char>>,
    /// The candidate tried now.
    pub next: int,
    /// The branch HEAD was on when the refs were read.
    pub head_branch: Option<Seq<char>>,
    /// A temporary branch of that name was left by an earlier import.
    pub stale_temp: bool,
    pub temp_kind: TempKind,
    /// The temporary branch could not be removed at the end.
    pub leftover: bool,
    /// The text of the error that ended the session, if one did.
    pub message: Seq<char>,
}

/// An action in mathematical terms.
pub enum ActionView {
    VerifyBundle,
    ListHeads,
    ReadRefs,
    AskResolution { branch: Seq<char> },
    ConfirmOverwrite { branch: Seq<char> },
    Checkout { branch: Seq<char> },
    CreateFromParent { branch: Seq<char> },
    CreateOrphan { branch: Seq<char> },
    ClearIndex,
    DeleteBranch { branch: Seq<char> },
    Fetch { source: Seq<char>, target: Seq<char> },
    Finish { source: Seq<char>, branch: Seq<char>, leftover: Option<Seq<char>> },
    Abort { kind: FailureKind, message: Seq<char> },
}

impl View for Action {
    type V = ActionView;

    open spec fn view(&self) -> ActionView {
        match self {
            Action::VerifyBundle => ActionView::VerifyBundle,
            Action::ListHeads => ActionView::ListHeads,
            Action::ReadRefs => ActionView::ReadRefs,
            Action::AskResolution { branch } => ActionView::AskResolution { branch: branch@ },
            Action::ConfirmOverwrite { branch } => ActionView::ConfirmOverwrite { branch: branch@ },
            Action::Checkout { branch } => ActionView::Checkout { branch: branch@ },
            Action::CreateFromParent { branch } => ActionView::CreateFromParent { branch: branch@ },
            Action::CreateOrphan { branch } => ActionView::CreateOrphan { branch: branch@ },
            Action::ClearIndex => ActionView::ClearIndex,
            Action::DeleteBranch { branch } => ActionView::DeleteBranch { branch: branch@ },
            Action::Fetch { source, target } => ActionView::Fetch { source: source@, target: target@ },
            Action::Finish { source, branch, leftover } => ActionView::Finish {
                source: source@,
                branch: branch@,
                leftover: leftover.deep_view(),
            },
            Action::Abort { error } => ActionView::Abort { kind: kind_of(*error), message: message_of(*error) },
        }
    }
}

/// The branch HEAD is on, as a snapshot shows it.
pub open spec fn head_branch_of(head: HeadState) -> Option<Seq<char>> {
    match head {
        HeadState::Symbolic { name } => branch_of_head(name@),
        _ => None,
    }
}

/// The local branches other than `target`, keeping their order.
pub open spec fn other_branches(locals: Seq<Seq<char>>, target: Seq<char>) -> Seq<Seq<char>>
    decreases locals.len(),
{
    if locals.len() == 0 {
        Seq::empty()
    } else {
        let rest = other_branches(locals.drop_last(), target);
        let b = locals.last();
        if b != target && b.len() > 0 {
            rest.push(b)
        } else {
            rest
        }
    }
}

/// The branches to move HEAD to before `target` is deleted, in order of
/// preference: the remote's default branch where it exists locally and is
/// not `target`, then every other local branch.
pub open spec fn detour_candidates(snapshot: RefSnapshot, target: Seq<char>) -> Seq<Seq<char>> {
    let locals = snapshot.local_branches.deep_view();
    let first = match remote_head_branch(snapshot.remote_head.deep_view()) {
        Some(d) => if locals.contains(d) && d != target { seq![d] } else { Seq::empty() },
        None => Seq::empty(),
    };
    first + other_branches(locals, target)
}

/// The text an error carries: its message, reason, path or key.
pub open spec fn message_of(e: QSyncError) -> Seq<char> {
    match e {
        QSyncError::NoBundlesFound { path } => path@,
        QSyncError::GitCommandFailed { message } => message@,
        QSyncError::ConfigMissing { key } => key@,
        QSyncError::BranchResolutionFailed { reason } => reason@,
        QSyncError::Io { message } => message@,
        _ => Seq::empty(),
    }
}

/// The failure a session ends in, with the text of its error.
pub open spec fn failed(s: SessionView, kind: FailureKind, message: Seq<char>) -> SessionView {
    SessionView { phase: Phase::Failed { kind }, message, ..s }
}

/// `what` followed by a quoted branch name.
pub open spec fn quoted(what: Seq<char>, name: Seq<char>) -> Seq<char> {
    what + " '"@ + name + "'"@
}

/// `what`, a colon and what git printed on its error stream; or, where the
/// answer was not a command's failure, a note that it did not fit.
pub open spec fn failure_text(what: Seq<char>, r: Response) -> Seq<char> {
    match r {
        Response::Failed { message } => what + ": "@ + message@,
        _ => what + ": unexpected answer"@,
    }
}

/// Where the detour goes once no candidate is left to try.
pub open spec fn after_candidates(s: SessionView) -> SessionView {
    if s.stale_temp {
        SessionView { phase: Phase::DeletingStaleTemp, ..s }
    } else {
        SessionView { phase: Phase::CreatingTemp, ..s }
    }
}

/// What the session does once the overwrite is confirmed.
pub open spec fn begin_overwrite(s: SessionView) -> SessionView {
    match s.head_branch {
        None => failed(s, FailureKind::Resolution, "HEAD is not on a branch"@),
        Some(h) => if h != s.target {
            SessionView { phase: Phase::DeletingTarget, ..s }
        } else if s.candidates.len() > 0 {
            SessionView { phase: Phase::SwitchingAway, next: 0, ..s }
        } else {
            after_candidates(s)
        },
    }
}

/// The session's state after the refs were read.
pub open spec fn after_refs(s: SessionView, snapshot: RefSnapshot) -> SessionView {
    let locals = snapshot.local_branches.deep_view();
    if locals.contains(s.branch) {
        SessionView {
            phase: Phase::Choosing,
            target: s.branch,
            temp: detour_name(s.branch),
            candidates: detour_candidates(snapshot, s.branch),
            next: 0,
            head_branch: head_branch_of(snapshot.head),
            stale_temp: locals.contains(detour_name(s.branch)),
            ..s
        }
    } else {
        SessionView { phase: Phase::Fetching, target: s.branch, ..s }
    }
}

/// One step of the session: its state after `r` answered the action it
/// waited on.
pub open spec fn next_state(s: SessionView, r: Response) -> SessionView {
    match s.phase {
        Phase::Verifying => match r {
            Response::Succeeded { .. } => SessionView { phase: Phase::ListingHeads, ..s },
            _ => failed(s, FailureKind::Verification, Seq::empty()),
        },
        Phase::ListingHeads => match r {
            Response::Succeeded { output } => match bundle_branch(output@) {
                Some(b) => SessionView { phase: Phase::ReadingRefs, branch: b, ..s },
                None => failed(
                    s,
                    FailureKind::Command,
                    if output@.len() == 0 {
                        "Bundle contains no refs"@
                    } else {
                        "Invalid bundle head format"@
                    },
                ),
            },
            _ => failed(s, FailureKind::Command, failure_text("Failed to list bundle heads"@, r)),
        },
        Phase::ReadingRefs => match r {
            Response::Refs { snapshot } => after_refs(s, snapshot),
            _ => failed(s, FailureKind::Command, failure_text("Failed to read the refs"@, r)),
        },
        Phase::Choosing => match r {
            Response::Chose { choice: ConflictChoice::Overwrite } => SessionView {
                phase: Phase::Confirming,
                ..s
            },
            Response::Chose { choice: ConflictChoice::Rename } => SessionView {
                phase: Phase::Fetching,
                target: renamed_import(s.branch),
                ..s
            },
            Response::Chose { choice: ConflictChoice::Cancel } => failed(
                s,
                FailureKind::Cancelled,
                Seq::empty(),
            ),
            _ => failed(s, FailureKind::Command, failure_text("No choice was made"@, r)),
        },
        Phase::Confirming => match r {
            Response::Confirmed { yes: true } => begin_overwrite(s),
            Response::Confirmed { yes: false } => failed(s, FailureKind::Cancelled, Seq::empty()),
            _ => failed(s, FailureKind::Command, failure_text("No confirmation was given"@, r)),
        },
        Phase::SwitchingAway => match r {
            Response::Succeeded { .. } => SessionView { phase: Phase::DeletingTarget, ..s },
            _ => if s.next + 1 < s.candidates.len() {
                SessionView { next: s.next + 1, ..s }
            } else {
                after_candidates(s)
            },
        },
        Phase::DeletingStaleTemp => match r {
            Response::Succeeded { .. } => SessionView { phase: Phase::CreatingTemp, ..s },
            _ => failed(
                s,
                FailureKind::Command,
                failure_text(quoted("Failed to delete existing temporary branch"@, s.temp), r),
            ),
        },
        Phase::CreatingTemp => match r {
            Response::Succeeded { .. } => SessionView {
                phase: Phase::DeletingTarget,
                temp_kind: TempKind::FromParent,
                ..s
            },
            _ => SessionView { phase: Phase::CreatingOrphan, ..s },
        },
        Phase::CreatingOrphan => match r {
            Response::Succeeded { .. } => SessionView {
                phase: Phase::ClearingIndex,
                temp_kind: TempKind::Orphan,
                ..s
            },
            _ => failed(
                s,
                FailureKind::Resolution,
                failure_text(quoted("Cannot switch away before deleting branch"@, s.target), r),
            ),
        },
        Phase::ClearingIndex => SessionView { phase: Phase::DeletingTarget, ..s },
        Phase::DeletingTarget => match r {
            Response::Succeeded { .. } => SessionView { phase: Phase::Fetching, ..s },
            _ => failed(
                s,
                FailureKind::Command,
                failure_text(quoted("Failed to delete branch"@, s.target), r),
            ),
        },
        Phase::Fetching => match r {
            Response::Succeeded { .. } => SessionView { phase: Phase::SwitchingToTarget, ..s },
            _ => failed(s, FailureKind::Command, failure_text("Failed to import bundle"@, r)),
        },
        Phase::SwitchingToTarget => match r {
            Response::Succeeded { .. } => if s.temp_kind == TempKind::FromParent {
                SessionView { phase: Phase::CleaningUp, ..s }
            } else {
                SessionView { phase: Phase::Done, ..s }
            },
            _ => failed(
                s,
                FailureKind::Command,
                failure_text(quoted("Failed to switch to branch"@, s.target), r),
            ),
        },
        Phase::CleaningUp => match r {
            Response::Succeeded { .. } => SessionView { phase: Phase::Done, ..s },
            _ => SessionView { phase: Phase::Done, leftover: true, ..s },
        },
        Phase::Done => s,
        Phase::Failed { .. } => s,
    }
}

/// The action a session in state `s` asks for.
pub open spec fn action_of(s: SessionView) -> ActionView {
    match s.phase {
        Phase::Verifying => ActionView::VerifyBundle,
        Phase::ListingHeads => ActionView::ListHeads,
        Phase::ReadingRefs => ActionView::ReadRefs,
        Phase::Choosing => ActionView::AskResolution { branch: s.branch },
        Phase::Confirming => ActionView::ConfirmOverwrite { branch: s.branch },
        Phase::SwitchingAway => ActionView::Checkout { branch: s.candidates[s.next] },
        Phase::DeletingStaleTemp => ActionView::DeleteBranch { branch: s.temp },
        Phase::CreatingTemp => ActionView::CreateFromParent { branch: s.temp },
        Phase::CreatingOrphan => ActionView::CreateOrphan { branch: s.temp },
        Phase::ClearingIndex => ActionView::ClearIndex,
        Phase::DeletingTarget => ActionView::DeleteBranch { branch: s.target },
        Phase::Fetching => ActionView::Fetch { source: s.branch, target: s.target },
        Phase::SwitchingToTarget => ActionView::Checkout { branch: s.target },
        Phase::CleaningUp => ActionView::DeleteBranch { branch: s.temp },
        Phase::Done => ActionView::Finish {
            source: s.branch,
            branch: s.target,
            leftover: if s.leftover { Some(s.temp) } else { None },
        },
        Phase::Failed { kind } => ActionView::Abort { kind, message: s.message },
    }
}

/// The state of a session that has just begun.
pub open spec fn initial_state() -> SessionView {
    SessionView {
        phase: Phase::Verifying,
        branch: Seq::empty(),
        target: Seq::empty(),
        temp: Seq::empty(),
        candidates: Seq::empty(),
        next: 0,
        head_branch: None,
        stale_temp: false,
        temp_kind: TempKind::NoTemp,
        leftover: false,
        message: Seq::empty(),
    }
}

impl RefSnapshot {
    /// Whether a local branch of that name exists; remote branches do not count.
    pub fn has_branch(&self, name: &str) -> (r: bool)
        ensures
            r == self.local_branches.deep_view().contains(name@),
    {
        contains_name(&self.local_branches, name)
    }

    /// Whether `name` is the branch HEAD is on; an error where HEAD is not
    /// on a branch.
    pub fn is_checked_out(&self, name: &str) -> (r: Result<bool, QSyncError>)
        ensures
            match r {
                Ok(b) => head_branch_of(self.head) matches Some(h) && b == (h == name@),
                Err(e) => head_branch_of(self.head) is None && e is BranchResolutionFailed,
            },
    {
        match current_branch(&self.head) {
            Ok(h) => {
                let n = String::from_str(name);
                Ok(h == n)
            },
            Err(e) => Err(e),
        }
    }
}

/// The session is in a state its steps can reach.
pub open spec fn well_formed(s: SessionView) -> bool {
    s.phase == Phase::SwitchingAway ==> 0 <= s.next < s.candidates.len()
}

/// Whether `v` holds a string equal to `s`.
fn contains_name(v: &Vec<String>, s: &str) -> (r: bool)
    ensures
        r == v.deep_view().contains(s@),
{
    let t = String::from_str(s);
    let mut i: usize = 0;
    while i < v.len()
        invariant
            i <= v@.len(),
            t@ == s@,
            forall|k: int| 0 <= k < i ==> v.deep_view()[k] != s@,
        decreases v@.len() - i,
    {
        if v[i] == t {
            assert(v.deep_view()[i as int] == s@);
            return true;
        }
        i = i + 1;
    }
    false
}

/// Appends to `out` the branches of `locals` other than `target`.
fn push_other_branches(out: &mut Vec<String>, locals: &Vec<String>, target: &String)
    ensures
        final(out).deep_view() == old(out).deep_view() + other_branches(locals.deep_view(), target@),
{
    let ghost start = out.deep_view();
    let mut i: usize = 0;
    while i < locals.len()
        invariant
            i <= locals@.len(),
            out.deep_view() == start + other_branches(locals.deep_view().subrange(0, i as int), target@),
        decreases locals@.len() - i,
    {
        let b = &locals[i];
        let ghost before = out.deep_view();
        let ghost prefix = locals.deep_view().subrange(0, i + 1);
        assert(prefix.drop_last() =~= locals.deep_view().subrange(0, i as int));
        assert(prefix.last() == b@);
        if *b != *target && b.as_str().unicode_len() > 0 {
            out.push(b.clone());
            assert(out.deep_view() =~= before.push(b@));
            assert(out.deep_view() =~= start + other_branches(prefix, target@));
        } else {
            assert(out.deep_view() =~= start + other_branches(prefix, target@));
        }
        i = i + 1;
    }
    assert(locals.deep_view().subrange(0, locals@.len() as int) =~= locals.deep_view());
}

/// The branches to move HEAD to before `target` is deleted.
fn detour_candidates_of(snapshot: &RefSnapshot, target: &String) -> (r: Vec<String>)
    ensures
        r.deep_view() == detour_candidates(*snapshot, target@),
{
    let mut r: Vec<String> = Vec::new();
    match remote_default_branch(&snapshot.remote_head) {
        Some(d) => {
            if contains_name(&snapshot.local_branches, d.as_str()) && d != *target {
                r.push(d);
            }
        },
        None => {},
    }
    push_other_branches(&mut r, &snapshot.local_branches, target);
    r
}

/// The branch HEAD is on, as a snapshot shows it.
fn head_branch_from(head: &HeadState) -> (r: Option<String>)
    ensures
        r.deep_view() == head_branch_of(*head),
{
    match head {
        HeadState::Symbolic { name } => strip_prefix_of(name.as_str(), "refs/heads/"),
        _ => None,
    }
}

/// A copy of an error, of the same kind.
fn copy_error(e: &QSyncError) -> (r: QSyncError)
    ensures
        kind_of(r) == kind_of(*e),
        message_of(r) == message_of(*e),
{
    match e {
        QSyncError::NotInGitRepo => QSyncError::NotInGitRepo,
        QSyncError::NoBundlesFound { path } => QSyncError::NoBundlesFound { path: path.clone() },
        QSyncError::BundleVerificationFailed => QSyncError::BundleVerificationFailed,
        QSyncError::GitCommandFailed { message } => QSyncError::GitCommandFailed { message: message.clone() },
        QSyncError::ConfigMissing { key } => QSyncError::ConfigMissing { key: key.clone() },
        QSyncError::BranchResolutionFailed { reason } => QSyncError::BranchResolutionFailed {
            reason: reason.clone(),
        },
        QSyncError::Io { message } => QSyncError::Io { message: message.clone() },
        QSyncError::Cancelled => QSyncError::Cancelled,
    }
}

/// `what` followed by a quoted branch name.
fn quoted_name(what: &str, name: &String) -> (m: String)
    ensures
        m@ == quoted(what@, name@),
{
    let mut m = String::from_str(what);
    m.append(" '");
    m.append(name.as_str());
    m.append("'");
    m
}

/// `what`, a colon and what git said, or a note that the answer did not fit.
fn describe_failure(what: &str, r: &Response) -> (m: String)
    ensures
        m@ == failure_text(what@, *r),
{
    let mut m = String::from_str(what);
    match r {
        Response::Failed { message } => {
            m.append(": ");
            m.append(message.as_str());
        },
        _ => {
            m.append(": unexpected answer");
        },
    }
    m
}

/// An import in progress.
pub struct ImportSession {
    phase: Phase,
    branch: String,
    target: String,
    temp: String,
    candidates: Vec<String>,
    next: usize,
    head_branch: Option<String>,
    stale_temp: bool,
    temp_kind: TempKind,
    leftover: bool,
    error: Option<QSyncError>,
}

impl View for ImportSession {
    type V = SessionView;

    closed spec fn view(&self) -> SessionView {
        SessionView {
            phase: self.phase,
            branch: self.branch@,
            target: self.target@,
            temp: self.temp@,
            candidates: self.candidates.deep_view(),
            next: self.next as int,
            head_branch: self.head_branch.deep_view(),
            stale_temp: self.stale_temp,
            temp_kind: self.temp_kind,
            leftover: self.leftover,
            message: match self.error {
                Some(e) => message_of(e),
                None => Seq::empty(),
            },
        }
    }
}

impl ImportSession {
    /// The state is reachable, and a failed session holds its error.
    pub closed spec fn wf(&self) -> bool {
        &&& well_formed(self@)
        &&& forall|k: FailureKind| self.phase == (Phase::Failed { kind: k }) ==> (
            self.error matches Some(e) && kind_of(e) == k)
    }

    /// A session that is about to verify the bundle.
    pub fn new() -> (r: ImportSession)
        ensures
            r.wf(),
            r@ == initial_state(),
    {
        let r = ImportSession {
            phase: Phase::Verifying,
            branch: String::new(),
            target: String::new(),
            temp: String::new(),
            candidates: Vec::new(),
            next: 0,
            head_branch: None,
            stale_temp: false,
            temp_kind: TempKind::NoTemp,
            leftover: false,
            error: None,
        };
        assert(r.candidates.deep_view() =~= Seq::<Seq<char>>::empty());
        r
    }

    /// The action the session waits on.
    pub fn action(&self) -> (a: Action)
        requires
            self.wf(),
        ensures
            a@ == action_of(self@),
    {
        match self.phase {
            Phase::Verifying => Action::VerifyBundle,
            Phase::ListingHeads => Action::ListHeads,
            Phase::ReadingRefs => Action::ReadRefs,
            Phase::Choosing => Action::AskResolution { branch: self.branch.clone() },
            Phase::Confirming => Action::ConfirmOverwrite { branch: self.branch.clone() },
            Phase::SwitchingAway => Action::Checkout { branch: self.candidates[self.next].clone() },
            Phase::DeletingStaleTemp => Action::DeleteBranch { branch: self.temp.clone() },
            Phase::CreatingTemp => Action::CreateFromParent { branch: self.temp.clone() },
            Phase::CreatingOrphan => Action::CreateOrphan { branch: self.temp.clone() },
            Phase::ClearingIndex => Action::ClearIndex,
            Phase::DeletingTarget => Action::DeleteBranch { branch: self.target.clone() },
            Phase::Fetching => Action::Fetch { source: self.branch.clone(), target: self.target.clone() },
            Phase::SwitchingToTarget => Action::Checkout { branch: self.target.clone() },
            Phase::CleaningUp => Action::DeleteBranch { branch: self.temp.clone() },
            Phase::Done => Action::Finish {
                source: self.branch.clone(),
                branch: self.target.clone(),
                leftover: if self.leftover { Some(self.temp.clone()) } else { None },
            },
            Phase::Failed { kind } => {
                let e = match &self.error {
                    Some(e) => copy_error(e),
                    None => QSyncError::Cancelled,
                };
                Action::Abort { error: e }
            },
        }
    }

    /// Ends the session with `error`.
    fn fail(&mut self, error: QSyncError)
        requires
            old(self).wf(),
        ensures
            final(self).wf(),
            final(self)@ == failed(old(self)@, kind_of(error), message_of(error)),
    {
        self.phase = Phase::Failed { kind: kind_of_error(&error) };
        self.error = Some(error);
    }

    /// Where the detour goes once no candidate is left to try.
    fn leave_candidates(&mut self)
        requires
            old(self).wf(),
        ensures
            final(self).wf(),
            final(self)@ == after_candidates(old(self)@),
    {
        if self.stale_temp {
            self.phase = Phase::DeletingStaleTemp;
        } else {
            self.phase = Phase::CreatingTemp;
        }
    }

    /// Takes in the answer to the action the session waited on and returns
    /// the next action.
    pub fn step(&mut self, response: Response) -> (a: Action)
        requires
            old(self).wf(),
        ensures
            final(self).wf(),
            final(self)@ == next_state(old(self)@, response),
            a@ == action_of(final(self)@),
    {
        match self.phase {
            Phase::Verifying => match response {
                Response::Succeeded { .. } => {
                    self.phase = Phase::ListingHeads;
                },
                _ => self.fail(QSyncError::BundleVerificationFailed),
            },
            Phase::ListingHeads => match response {
                Response::Succeeded { output } => match extract_branch_name(output.as_str()) {
                    Ok(b) => {
                        self.branch = b;
                        self.phase = Phase::ReadingRefs;
                    },
                    Err(e) => self.fail(e),
                },
                _ => self.fail(
                    QSyncError::GitCommandFailed { message: describe_failure("Failed to list bundle heads", &response) },
                ),
            },
            Phase::ReadingRefs => match response {
                Response::Refs { snapshot } => {
                    if contains_name(&snapshot.local_branches, self.branch.as_str()) {
                        let temp = temp_branch_name(self.branch.as_str());
                        self.stale_temp = contains_name(&snapshot.local_branches, temp.as_str());
                        self.temp = temp;
                        self.target = self.branch.clone();
                        self.candidates = detour_candidates_of(&snapshot, &self.branch);
                        self.next = 0;
                        self.head_branch = head_branch_from(&snapshot.head);
                        self.phase = Phase::Choosing;
                    } else {
                        self.target = self.branch.clone();
                        self.phase = Phase::Fetching;
                    }
                },
                _ => self.fail(
                    QSyncError::GitCommandFailed { message: describe_failure("Failed to read the refs", &response) },
                ),
            },
            Phase::Choosing => match response {
                Response::Chose { choice: ConflictChoice::Overwrite } => {
                    self.phase = Phase::Confirming;
                },
                Response::Chose { choice: ConflictChoice::Rename } => {
                    self.target = import_branch_name(self.branch.as_str());
                    self.phase = Phase::Fetching;
                },
                Response::Chose { choice: ConflictChoice::Cancel } => self.fail(QSyncError::Cancelled),
                _ => self.fail(
                    QSyncError::GitCommandFailed { message: describe_failure("No choice was made", &response) },
                ),
            },
            Phase::Confirming => match response {
                Response::Confirmed { yes: true } => self.begin_overwrite(),
                Response::Confirmed { yes: false } => self.fail(QSyncError::Cancelled),
                _ => self.fail(
                    QSyncError::GitCommandFailed { message: describe_failure("No confirmation was given", &response) },
                ),
            },
            Phase::SwitchingAway => match response {
                Response::Succeeded { .. } => {
                    self.phase = Phase::DeletingTarget;
                },
                _ => {
                    let n = self.candidates.len();
                    assert(self.candidates.deep_view().len() == n);
                    if self.next < n - 1 {
                        self.next = self.next + 1;
                    } else {
                        self.leave_candidates();
                    }
                },
            },
            Phase::DeletingStaleTemp => match response {
                Response::Succeeded { .. } => {
                    self.phase = Phase::CreatingTemp;
                },
                _ => self.fail(
                    QSyncError::GitCommandFailed {
                        message: describe_failure(quoted_name("Failed to delete existing temporary branch", &self.temp).as_str(), &response),
                    },
                ),
            },
            Phase::CreatingTemp => match response {
                Response::Succeeded { .. } => {
                    self.temp_kind = TempKind::FromParent;
                    self.phase = Phase::DeletingTarget;
                },
                _ => {
                    self.phase = Phase::CreatingOrphan;
                },
            },
            Phase::CreatingOrphan => match response {
                Response::Succeeded { .. } => {
                    self.temp_kind = TempKind::Orphan;
                    self.phase = Phase::ClearingIndex;
                },
                _ => self.fail(
                    QSyncError::BranchResolutionFailed {
                        reason: describe_failure(quoted_name("Cannot switch away before deleting branch", &self.target).as_str(), &response),
                    },
                ),
            },
            Phase::ClearingIndex => {
                self.phase = Phase::DeletingTarget;
            },
            Phase::DeletingTarget => match response {
                Response::Succeeded { .. } => {
                    self.phase = Phase::Fetching;
                },
                _ => self.fail(
                    QSyncError::GitCommandFailed { message: describe_failure(quoted_name("Failed to delete branch", &self.target).as_str(), &response) },
                ),
            },
            Phase::Fetching => match response {
                Response::Succeeded { .. } => {
                    self.phase = Phase::SwitchingToTarget;
                },
                _ => self.fail(
                    QSyncError::GitCommandFailed { message: describe_failure("Failed to import bundle", &response) },
                ),
            },
            Phase::SwitchingToTarget => match response {
                Response::Succeeded { .. } => {
                    if self.temp_kind == TempKind::FromParent {
                        self.phase = Phase::CleaningUp;
                    } else {
                        self.phase = Phase::Done;
                    }
                },
                _ => self.fail(
                    QSyncError::GitCommandFailed { message: describe_failure(quoted_name("Failed to switch to branch", &self.target).as_str(), &response) },
                ),
            },
            Phase::CleaningUp => match response {
                Response::Succeeded { .. } => {
                    self.phase = Phase::Done;
                },
                _ => {
                    self.leftover = true;
                    self.phase = Phase::Done;
                },
            },
            Phase::Done => {},
            Phase::Failed { .. } => {},
        }
        self.action()
    }

    /// What the session does once the overwrite is confirmed.
    fn begin_overwrite(&mut self)
        requires
            old(self).wf(),
        ensures
            final(self).wf(),
            final(self)@ == begin_overwrite(old(self)@),
    {
        match &self.head_branch {
            None => self.fail(
                QSyncError::BranchResolutionFailed {
                    reason: String::from_str("HEAD is not on a branch"),
                },
            ),
            Some(h) => {
                if *h != self.target {
                    self.phase = Phase::DeletingTarget;
                } else if self.candidates.len() > 0 {
                    self.next = 0;
                    self.phase = Phase::SwitchingAway;
                } else {
                    self.leave_candidates();
                }
            },
        }
    }
}

/// The kind of an error.
fn kind_of_error(e: &QSyncError) -> (k: FailureKind)
    ensures
        k == kind_of(*e),
{
    match e {
        QSyncError::BundleVerificationFailed => FailureKind::Verification,
        QSyncError::BranchResolutionFailed { .. } => FailureKind::Resolution,
        QSyncError::Cancelled => FailureKind::Cancelled,
        _ => FailureKind::Command,
    }
}

} // verus!
