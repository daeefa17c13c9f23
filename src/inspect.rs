//! Reading the repository's state: the current branch, the default branch,
//! the branch a bundle carries, and statistics over a walk of commits.
use vstd::prelude::*;
use crate::error::QSyncError;
use crate::names::{
    short_form, strip_or_copy, strip_or_keep, strip_prefix, strip_prefix_of,
    short_id,
};
use crate::text::{first_line, second_field, second_field_of_first_line, trim, trimmed};

verus! {

/// What HEAD points at.
#[derive(Debug, Clone)]
pub enum HeadState {
    /// HEAD names a reference, given in full (`refs/heads/main`).
    Symbolic { name: String },
    /// HEAD holds a commit id.
    Detached,
    /// HEAD names a branch that has no commit yet.
    Unborn,
}

/// The branch named by a HEAD that points at the reference `name`: the
/// name without `refs/heads/`, or none where `name` is not a branch.
pub open spec fn branch_of_head(name: Seq<char>) -> Option<Seq<char>> {
    strip_prefix(name, "refs/heads/"@)
}

/// The branch HEAD points at, without its `refs/heads/` prefix. A HEAD that
/// is detached, unborn, or points at a reference outside `refs/heads/` is an
/// error, never a guess.
pub fn current_branch(head: &HeadState) -> (r: Result<String, QSyncError>)
    ensures
        match (head, r) {
            (HeadState::Symbolic { name }, Ok(b)) => branch_of_head(name@) == Some(b@),
            (
                HeadState::Symbolic { name },
                Err(QSyncError::BranchResolutionFailed { reason }),
            ) => branch_of_head(name@) is None && reason@ == "HEAD does not point at a branch"@,
            (HeadState::Detached, Err(QSyncError::BranchResolutionFailed { reason })) => reason@
                == "HEAD is detached, not on a branch"@,
            (HeadState::Unborn, Err(QSyncError::BranchResolutionFailed { reason })) => reason@
                == "HEAD is unborn or in an unexpected state"@,
            _ => false,
        },
{
    match head {
        HeadState::Symbolic { name } => match strip_prefix_of(name.as_str(), "refs/heads/") {
            Some(b) => Ok(b),
            None => Err(
                QSyncError::BranchResolutionFailed {
                    reason: String::from_str("HEAD does not point at a branch"),
                },
            ),
        },
        HeadState::Detached => Err(
            QSyncError::BranchResolutionFailed {
                reason: String::from_str("HEAD is detached, not on a branch"),
            },
        ),
        HeadState::Unborn => Err(
            QSyncError::BranchResolutionFailed {
                reason: String::from_str("HEAD is unborn or in an unexpected state"),
            },
        ),
    }
}

/// Which of the conventional default branches exist in the repository.
#[derive(Debug, Clone, Copy)]
pub struct RefProbe {
    /// `refs/remotes/origin/main` exists.
    pub origin_main: bool,
    /// `refs/remotes/origin/master` exists.
    pub origin_master: bool,
    /// `refs/heads/main` exists.
    pub main: bool,
    /// `refs/heads/master` exists.
    pub master: bool,
}

/// The default branch named by the output of
/// `git symbolic-ref refs/remotes/origin/HEAD`: `origin/main` for
/// `refs/remotes/origin/main`.
pub open spec fn default_from_symbolic(output: Seq<char>) -> Seq<char> {
    strip_or_keep(trimmed(output), "refs/remotes/"@)
}

/// The first conventional default branch that exists, in the order
/// `origin/main`, `origin/master`, `main`, `master`.
pub open spec fn conventional_default(p: RefProbe) -> Option<Seq<char>> {
    if p.origin_main {
        Some("origin/main"@)
    } else if p.origin_master {
        Some("origin/master"@)
    } else if p.main {
        Some("main"@)
    } else if p.master {
        Some("master"@)
    } else {
        None
    }
}

/// The default branch: the remote's recorded HEAD where it is set (the
/// output of the symbolic-ref query), else the first conventional branch
/// that exists, else none.
pub open spec fn default_branch_of(symbolic: Option<Seq<char>>, p: RefProbe) -> Option<Seq<char>> {
    match symbolic {
        Some(out) => Some(default_from_symbolic(out)),
        None => conventional_default(p),
    }
}

/// The default branch named by the output of the symbolic-ref query.
pub fn default_branch_from_symbolic(output: &str) -> (r: String)
    ensures
        r@ == default_from_symbolic(output@),
{
    let t = trim(output);
    strip_or_copy(t.as_str(), "refs/remotes/")
}

/// Resolves the default branch from the output of
/// `git symbolic-ref refs/remotes/origin/HEAD` (`None` where that query
/// failed) and from which conventional branches exist.
pub fn resolve_default_branch(symbolic_ref_output: Option<String>, probe: RefProbe) -> (r: Result<
    String,
    QSyncError,
>)
    ensures
        match r {
            Ok(b) => default_branch_of(symbolic_ref_output.deep_view(), probe) == Some(b@),
            Err(e) => default_branch_of(symbolic_ref_output.deep_view(), probe) is None
                && e is BranchResolutionFailed,
        },
{
    match symbolic_ref_output {
        Some(out) => Ok(default_branch_from_symbolic(out.as_str())),
        None => {
            if probe.origin_main {
                Ok(String::from_str("origin/main"))
            } else if probe.origin_master {
                Ok(String::from_str("origin/master"))
            } else if probe.main {
                Ok(String::from_str("main"))
            } else if probe.master {
                Ok(String::from_str("master"))
            } else {
                Err(
                    QSyncError::BranchResolutionFailed {
                        reason: String::from_str("Cannot determine default branch"),
                    },
                )
            }
        },
    }
}

/// With no remote HEAD recorded and no remote `main` or `master`, the
/// default branch is the local `main` if it exists, else the local `master`
/// if it exists, and resolution fails otherwise, whatever other branches
/// there are.
pub proof fn default_branch_without_remote(p: RefProbe)
    requires
        !p.origin_main,
        !p.origin_master,
    ensures
        p.main ==> default_branch_of(None, p) == Some("main"@),
        !p.main && p.master ==> default_branch_of(None, p) == Some("master"@),
        !p.main && !p.master ==> default_branch_of(None, p) is None,
{
}

/// The branch that the remote's HEAD points at, from the full name of its
/// target (`refs/remotes/origin/main` gives `main`).
pub open spec fn remote_head_branch(target: Option<Seq<char>>) -> Option<Seq<char>> {
    match target {
        Some(t) => strip_prefix(t, "refs/remotes/origin/"@),
        None => None,
    }
}

/// The local name of the remote's default branch, where the remote's HEAD
/// is a symbolic reference to `refs/remotes/origin/<name>`.
pub fn remote_default_branch(target: &Option<String>) -> (r: Option<String>)
    ensures
        r.deep_view() == remote_head_branch(target.deep_view()),
{
    match target {
        Some(t) => strip_prefix_of(t.as_str(), "refs/remotes/origin/"),
        None => None,
    }
}

/// The branch that a bundle carries, from the output of
/// `git bundle list-heads`: the second field of its first line, without a
/// `refs/heads/` prefix. `None` where the output holds no line or the first
/// line has no second field.
pub open spec fn bundle_branch(output: Seq<char>) -> Option<Seq<char>> {
    if output.len() == 0 {
        None
    } else {
        match second_field(first_line(output)) {
            Some(f) => Some(strip_or_keep(f, "refs/heads/"@)),
            None => None,
        }
    }
}

/// The branch that a bundle carries, read from the output of
/// `git bundle list-heads`.
pub fn extract_branch_name(list_heads_output: &str) -> (r: Result<String, QSyncError>)
    ensures
        match r {
            Ok(b) => bundle_branch(list_heads_output@) == Some(b@),
            Err(QSyncError::GitCommandFailed { message }) => bundle_branch(list_heads_output@) is None
                && message@ == (if list_heads_output@.len() == 0 {
                "Bundle contains no refs"@
            } else {
                "Invalid bundle head format"@
            }),
            Err(_) => false,
        },
{
    if list_heads_output.unicode_len() == 0 {
        return Err(
            QSyncError::GitCommandFailed { message: String::from_str("Bundle contains no refs") },
        );
    }
    match second_field_of_first_line(list_heads_output) {
        Some(f) => Ok(strip_or_copy(f.as_str(), "refs/heads/")),
        None => Err(
            QSyncError::GitCommandFailed {
                message: String::from_str("Invalid bundle head format"),
            },
        ),
    }
}

/// The most commits a statistics walk visits.
pub const WALK_LIMIT: usize = 50000;

/// Statistics over a walk of commits that runs from the newest commit of a
/// range towards its oldest, stopping after `WALK_LIMIT` commits.
pub struct RangeStats {
    count: usize,
    newest: String,
    oldest: String,
    visited: Ghost<Seq<Seq<char>>>,
}

impl View for RangeStats {
    type V = Seq<Seq<char>>;

    /// The ids of the commits recorded so far, in the order of the walk.
    closed spec fn view(&self) -> Seq<Seq<char>> {
        self.visited@
    }
}

impl RangeStats {
    /// The counters agree with the commits recorded.
    pub closed spec fn wf(&self) -> bool {
        &&& self.count == self.visited@.len()
        &&& self.count <= WALK_LIMIT
        &&& self.count > 0 ==> self.newest@ == short_form(self.visited@[0])
        &&& self.count > 0 ==> self.oldest@ == short_form(self.visited@.last())
    }

    /// Statistics of a walk that has visited nothing yet.
    pub fn new() -> (r: RangeStats)
        ensures
            r.wf(),
            r@ == Seq::<Seq<char>>::empty(),
    {
        RangeStats {
            count: 0,
            newest: String::new(),
            oldest: String::new(),
            visited: Ghost(Seq::empty()),
        }
    }

    /// Records the next commit of the walk, unless the limit has been
    /// reached; returns whether the walk should go on.
    pub fn record(&mut self, commit_id: &str) -> (more: bool)
        requires
            old(self).wf(),
        ensures
            final(self).wf(),
            old(self)@.len() < WALK_LIMIT ==> final(self)@ == old(self)@.push(commit_id@),
            old(self)@.len() >= WALK_LIMIT ==> final(self)@ == old(self)@,
            final(self)@.len() <= WALK_LIMIT,
            more == (final(self)@.len() < WALK_LIMIT),
    {
        if self.count >= WALK_LIMIT {
            return false;
        }
        let id = short_id(commit_id);
        if self.count == 0 {
            self.newest = id.clone();
        }
        self.oldest = id;
        self.count = self.count + 1;
        self.visited = Ghost(self.visited@.push(commit_id@));
        self.count < WALK_LIMIT
    }

    /// The number of commits visited, the short id of the oldest and that of
    /// the newest; `"no commits"` for both where the walk visited none.
    pub fn summary(&self) -> (r: (usize, String, String))
        requires
            self.wf(),
        ensures
            r.0 == self@.len(),
            self@.len() == 0 ==> r.1@ == "no commits"@ && r.2@ == "no commits"@,
            self@.len() > 0 ==> r.1@ == short_form(self@.last()) && r.2@ == short_form(self@[0]),
    {
        if self.count == 0 {
            (self.count, String::from_str("no commits"), String::from_str("no commits"))
        } else {
            (self.count, self.oldest.clone(), self.newest.clone())
        }
    }
}

} // verus!
