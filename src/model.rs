//! A model of the refs that an import changes, of how git answers each
//! action, and what holds of every run of an import against it.
use vstd::prelude::*;
use crate::names::{detour_name, renamed_import};
use crate::session::{
    action_of, detour_candidates, head_branch_of, initial_state, next_state, other_branches,
    well_formed, ActionView, ConflictChoice, FailureKind, Phase, RefSnapshot, Response, SessionView, TempKind,
};

verus! {

/// The local branches of a repository, their commits, and its HEAD.
pub struct RepoModel {
    /// The local branches that exist, by short name.
    pub branches: Set<Seq<char>>,
    /// The commit each branch points at.
    pub tips: Map<Seq<char>, Seq<char>>,
    /// The branch HEAD points at (which may have no commit yet), or `None`
    /// where HEAD is detached.
    pub head: Option<Seq<char>>,
    /// The commit HEAD resolves to has a parent.
    pub head_has_parent: bool,
}

/// The snapshot shows the repository as it is.
pub open spec fn shows(snapshot: RefSnapshot, m: RepoModel) -> bool {
    &&& head_branch_of(snapshot.head) == m.head
    &&& forall|b: Seq<char>| snapshot.local_branches.deep_view().contains(b) <==> m.branches.contains(b)
}

/// The refs are as they were.
pub open spec fn refs_kept(m: RepoModel, m2: RepoModel) -> bool {
    m2.branches == m.branches && m2.tips == m.tips && m2.head == m.head
}

/// How git may answer `a` in repository `m`, leaving it as `m2`, when the
/// bundle being imported holds the branches `bundle` (name to commit): a
/// command that fails changes nothing; one that succeeds was allowed and had
/// its effect; reading the refs shows them as they are; asking the user
/// changes nothing.
pub open spec fn git_answers(
    m: RepoModel,
    a: ActionView,
    r: Response,
    m2: RepoModel,
    bundle: Map<Seq<char>, Seq<char>>,
) -> bool {
    match r {
        Response::Succeeded { .. } => match a {
            ActionView::Checkout { branch } => m.branches.contains(branch) && m2.branches
                == m.branches && m2.tips == m.tips && m2.head == Some(branch),
            ActionView::CreateFromParent { branch } => m.head_has_parent && !m.branches.contains(
                branch,
            ) && m2.branches == m.branches.insert(branch) && m2.tips == m.tips.insert(
                branch,
                m2.tips[branch],
            ) && m2.head == Some(branch),
            ActionView::CreateOrphan { branch } => !m.branches.contains(branch) && m2.branches
                == m.branches && m2.tips == m.tips && m2.head == Some(branch),
            ActionView::DeleteBranch { branch } => m.branches.contains(branch) && m.head != Some(
                branch,
            ) && m2.branches == m.branches.remove(branch) && m2.tips == m.tips.remove(branch)
                && m2.head == m.head,
            ActionView::Fetch { source, target } => m.head != Some(target) && bundle.dom().contains(
                source,
            ) && m2.branches == m.branches.insert(target) && m2.tips == m.tips.insert(
                target,
                bundle[source],
            ) && m2.head == m.head,
            _ => refs_kept(m, m2),
        },
        Response::Refs { snapshot } => shows(snapshot, m) && refs_kept(m, m2),
        _ => refs_kept(m, m2),
    }
}

/// HEAD is on a branch that exists, or on the orphan branch that the
/// session made, which has no commit yet.
pub open spec fn head_on_branch(s: SessionView, m: RepoModel) -> bool {
    match m.head {
        Some(h) => m.branches.contains(h) || (s.temp_kind == TempKind::Orphan && h == s.temp),
        None => false,
    }
}

/// No candidate is the branch to replace.
pub open spec fn candidates_avoid(s: SessionView) -> bool {
    forall|i: int| 0 <= i < s.candidates.len() ==> s.candidates[i] != s.target
}

/// What holds of a session and the repository at every step of a run.
pub open spec fn run_invariant(s: SessionView, m: RepoModel) -> bool {
    &&& well_formed(s)
    &&& head_on_branch(s, m)
    &&& (s.temp_kind == TempKind::Orphan ==> !m.branches.contains(s.temp) && s.temp != s.target)
    &&& (s.temp_kind == TempKind::FromParent ==> s.temp != s.target)
    &&& match s.phase {
        Phase::Choosing | Phase::Confirming => {
            &&& s.target == s.branch
            &&& s.temp == detour_name(s.target)
            &&& s.head_branch == m.head
            &&& candidates_avoid(s)
            &&& s.temp_kind == TempKind::NoTemp
        },
        Phase::SwitchingAway => {
            &&& m.head == Some(s.target)
            &&& s.temp == detour_name(s.target)
            &&& candidates_avoid(s)
            &&& s.temp_kind == TempKind::NoTemp
        },
        Phase::DeletingStaleTemp | Phase::CreatingTemp | Phase::CreatingOrphan => {
            &&& m.head == Some(s.target)
            &&& s.temp == detour_name(s.target)
            &&& s.temp_kind == TempKind::NoTemp
        },
        Phase::Verifying | Phase::ListingHeads | Phase::ReadingRefs => s.temp_kind == TempKind::NoTemp,
        Phase::ClearingIndex => s.temp_kind == TempKind::Orphan && m.head == Some(s.temp),
        Phase::DeletingTarget => m.head matches Some(h) && h != s.target && (s.temp_kind
            == TempKind::Orphan ==> h == s.temp),
        Phase::CleaningUp => m.head == Some(s.target) && s.temp_kind == TempKind::FromParent,
        Phase::Done => {
            &&& m.head == Some(s.target)
            &&& m.branches.contains(s.target)
            &&& (s.temp_kind == TempKind::FromParent && !s.leftover ==> !m.branches.contains(s.temp))
        },
        _ => true,
    }
}

/// The session has not yet asked git to change anything.
pub open spec fn early_phase(s: SessionView) -> bool {
    match s.phase {
        Phase::Verifying | Phase::ListingHeads | Phase::ReadingRefs | Phase::Choosing
        | Phase::Confirming => true,
        _ => false,
    }
}

/// Every branch other than `s.target` and `s.temp` exists in `m` exactly
/// where it existed in `m0`, at the same commit.
pub open spec fn others_kept(s: SessionView, m0: RepoModel, m: RepoModel) -> bool {
    &&& forall|b: Seq<char>|
        #![trigger m.branches.contains(b)]
        #![trigger m0.branches.contains(b)]
        b != s.target && b != s.temp ==> (m.branches.contains(b) <==> m0.branches.contains(b))
    &&& forall|b: Seq<char>|
        #![trigger m.tips[b]]
        #![trigger m0.tips[b]]
        b != s.target && b != s.temp && m0.branches.contains(b) ==> m.tips[b] == m0.tips[b]
}

/// What holds of the commits at every step of a run that started in `m0`.
pub open spec fn commits_invariant(
    s: SessionView,
    m: RepoModel,
    m0: RepoModel,
    bundle: Map<Seq<char>, Seq<char>>,
) -> bool {
    &&& m.tips.dom() == m.branches
    &&& (early_phase(s) ==> refs_kept(m0, m))
    &&& others_kept(s, m0, m)
    &&& (s.target == renamed_import(s.branch) ==> s.temp == detour_name(s.branch))
    &&& match s.phase {
        Phase::Verifying | Phase::ListingHeads | Phase::ReadingRefs => s.target.len() == 0,
        Phase::SwitchingToTarget | Phase::CleaningUp | Phase::Done => {
            &&& bundle.dom().contains(s.branch)
            &&& m.branches.contains(s.target)
            &&& m.tips[s.target] == bundle[s.branch]
        },
        _ => true,
    }
}

proof fn lemma_renamed_differs(t: Seq<char>)
    ensures
        renamed_import(t) != t,
        renamed_import(t) != detour_name(t),
        renamed_import(t).len() > 0,
{
    reveal_strlit("import-");
    reveal_strlit("temp-before-import-");
    assert(renamed_import(t).len() == t.len() + 7);
    assert(detour_name(t).len() == t.len() + 19);
}

proof fn lemma_commits_invariant_step(
    s: SessionView,
    m: RepoModel,
    r: Response,
    m2: RepoModel,
    m0: RepoModel,
    bundle: Map<Seq<char>, Seq<char>>,
)
    requires
        run_invariant(s, m),
        commits_invariant(s, m, m0, bundle),
        git_answers(m, action_of(s), r, m2, bundle),
    ensures
        commits_invariant(next_state(s, r), m2, m0, bundle),
{
    let s2 = next_state(s, r);
    lemma_renamed_differs(s.branch);
    lemma_renamed_differs(s2.branch);
    lemma_detour_name_differs(s.target);
    if let Response::Succeeded { .. } = r {
        match action_of(s) {
            ActionView::CreateFromParent { branch } => {
                assert(m2.tips.dom() =~= m2.branches);
            },
            ActionView::DeleteBranch { branch } => {
                assert(m2.tips.dom() =~= m2.branches);
            },
            ActionView::Fetch { source, target } => {
                assert(m2.tips.dom() =~= m2.branches);
            },
            _ => {},
        }
    }
}

proof fn lemma_detour_name_differs(t: Seq<char>)
    ensures
        detour_name(t) != t,
{
    reveal_strlit("temp-before-import-");
    assert(detour_name(t).len() == t.len() + 19);
}

proof fn lemma_other_branches_avoid(locals: Seq<Seq<char>>, target: Seq<char>)
    ensures
        forall|i: int| 0 <= i < other_branches(locals, target).len() ==> other_branches(locals, target)[i] != target,
    decreases locals.len(),
{
    if locals.len() > 0 {
        lemma_other_branches_avoid(locals.drop_last(), target);
        let rest = other_branches(locals.drop_last(), target);
        let b = locals.last();
        if b != target && b.len() > 0 {
            assert forall|i: int| 0 <= i < rest.push(b).len() implies rest.push(b)[i] != target by {
                if i < rest.len() {
                    assert(rest.push(b)[i] == rest[i]);
                }
            }
        }
    }
}

proof fn lemma_candidates_avoid(snapshot: RefSnapshot, target: Seq<char>)
    ensures
        forall|i: int| 0 <= i < detour_candidates(snapshot, target).len() ==> detour_candidates(snapshot, target)[i] != target,
{
    lemma_other_branches_avoid(snapshot.local_branches.deep_view(), target);
}

proof fn lemma_run_invariant_step(
    s: SessionView,
    m: RepoModel,
    r: Response,
    m2: RepoModel,
    bundle: Map<Seq<char>, Seq<char>>,
)
    requires
        run_invariant(s, m),
        git_answers(m, action_of(s), r, m2, bundle),
    ensures
        run_invariant(next_state(s, r), m2),
{
    let s2 = next_state(s, r);
    match s.phase {
        Phase::ReadingRefs => {
            if let Response::Refs { snapshot } = r {
                lemma_candidates_avoid(snapshot, s.branch);
                lemma_detour_name_differs(s.branch);
            }
        },
        Phase::SwitchingAway => {
            lemma_detour_name_differs(s.target);
        },
        Phase::DeletingStaleTemp | Phase::CreatingTemp | Phase::CreatingOrphan => {
            lemma_detour_name_differs(s.target);
        },
        _ => {},
    }
}

proof fn lemma_run_invariant_holds(
    states: Seq<SessionView>,
    repos: Seq<RepoModel>,
    answers: Seq<Response>,
    bundle: Map<Seq<char>, Seq<char>>,
    k: int,
)
    requires
        states.len() == answers.len() + 1,
        repos.len() == answers.len() + 1,
        run_invariant(states[0], repos[0]),
        commits_invariant(states[0], repos[0], repos[0], bundle),
        forall|i: int|
            0 <= i < answers.len() ==> states[i + 1] == next_state(states[i], #[trigger] answers[i])
                && git_answers(repos[i], action_of(states[i]), answers[i], repos[i + 1], bundle),
        0 <= k < states.len(),
    ensures
        run_invariant(states[k], repos[k]),
        commits_invariant(states[k], repos[k], repos[0], bundle),
    decreases k,
{
    if k > 0 {
        lemma_run_invariant_holds(states, repos, answers, bundle, k - 1);
        let _ = answers[k - 1];
        lemma_run_invariant_step(states[k - 1], repos[k - 1], answers[k - 1], repos[k], bundle);
        lemma_commits_invariant_step(
            states[k - 1],
            repos[k - 1],
            answers[k - 1],
            repos[k],
            repos[0],
            bundle,
        );
    }
}

/// Along any run of an import of a bundle holding the branches `bundle`
/// (name to commit) against a repository that answers as git does,
/// starting with HEAD on an existing branch: HEAD is never detached; the
/// branch it is on exists at every step, except while it is parked on the
/// orphan branch made when no other branch could be checked out; no step
/// deletes the branch HEAD is on; every branch other than the import's
/// target and its temporary branch keeps its existence and its commit; and a
/// finished import leaves HEAD on the imported branch, which points at the
/// bundle's commit for the branch it carries, with the temporary branch gone
/// unless its removal was reported as failed. After a rename, the existing
/// branch of the bundle's name keeps its commit.
pub proof fn import_keeps_head_on_a_branch(
    states: Seq<SessionView>,
    repos: Seq<RepoModel>,
    answers: Seq<Response>,
    bundle: Map<Seq<char>, Seq<char>>,
    k: int,
)
    requires
        states.len() == answers.len() + 1,
        repos.len() == answers.len() + 1,
        states[0] == initial_state(),
        repos[0].head matches Some(h) && repos[0].branches.contains(h),
        repos[0].tips.dom() == repos[0].branches,
        forall|i: int|
            0 <= i < answers.len() ==> states[i + 1] == next_state(states[i], #[trigger] answers[i])
                && git_answers(repos[i], action_of(states[i]), answers[i], repos[i + 1], bundle),
        0 <= k < states.len(),
    ensures
        repos[k].head is Some,
        head_on_branch(states[k], repos[k]),
        repos[k].head matches Some(h) && !repos[k].branches.contains(h) ==> states[k].temp_kind
            == TempKind::Orphan,
        action_of(states[k]) matches ActionView::DeleteBranch { branch } ==> repos[k].head != Some(
            branch,
        ),
        others_kept(states[k], repos[0], repos[k]),
        states[k].phase == Phase::Done ==> repos[k].head == Some(states[k].target)
            && repos[k].branches.contains(states[k].target)
            && bundle.dom().contains(states[k].branch)
            && repos[k].tips[states[k].target] == bundle[states[k].branch],
        states[k].phase == Phase::Done && states[k].temp_kind != TempKind::NoTemp
            && !states[k].leftover ==> !repos[k].branches.contains(states[k].temp),
        states[k].phase == Phase::Done && states[k].target == renamed_import(states[k].branch)
            && repos[0].branches.contains(states[k].branch) ==> repos[k].branches.contains(
            states[k].branch,
        ) && repos[k].tips[states[k].branch] == repos[0].tips[states[k].branch],
{
    lemma_renamed_differs(states[0].branch);
    lemma_run_invariant_holds(states, repos, answers, bundle, k);
    lemma_detour_name_differs(states[k].target);
    lemma_renamed_differs(states[k].branch);
    lemma_detour_name_differs(states[k].branch);
}

/// An import into a repository that has no branch of the bundle's name
/// keeps the name: once the refs are read, the session fetches the bundle's
/// branch onto a local branch of the same name, and once that and the
/// checkout succeed it finishes on that branch with nothing left behind.
pub proof fn fresh_import_keeps_name(s: SessionView, snapshot: RefSnapshot, out1: String, out2: String)
    requires
        s.phase == Phase::ReadingRefs,
        s.temp_kind == TempKind::NoTemp,
        !s.leftover,
        !snapshot.local_branches.deep_view().contains(s.branch),
    ensures
        action_of(next_state(s, Response::Refs { snapshot })) == (ActionView::Fetch {
            source: s.branch,
            target: s.branch,
        }),
        ({
            let fetched = next_state(next_state(s, Response::Refs { snapshot }), Response::Succeeded { output: out1 });
            &&& action_of(fetched) == (ActionView::Checkout { branch: s.branch })
            &&& action_of(next_state(fetched, Response::Succeeded { output: out2 })) == (ActionView::Finish {
                source: s.branch,
                branch: s.branch,
                leftover: None,
            })
        }),
{
}

/// Choosing to rename keeps the existing branch: the bundle's branch is
/// fetched under a different, derived name, which is then checked out, and
/// no step in between deletes a branch or moves HEAD elsewhere.
pub proof fn rename_keeps_existing_branch(s: SessionView, out1: String, out2: String)
    requires
        s.phase == Phase::Choosing,
        s.temp_kind == TempKind::NoTemp,
        !s.leftover,
    ensures
        renamed_import(s.branch) != s.branch,
        action_of(next_state(s, Response::Chose { choice: ConflictChoice::Rename })) == (ActionView::Fetch {
            source: s.branch,
            target: renamed_import(s.branch),
        }),
        ({
            let fetched = next_state(next_state(s, Response::Chose { choice: ConflictChoice::Rename }), Response::Succeeded { output: out1 });
            &&& action_of(fetched) == (ActionView::Checkout { branch: renamed_import(s.branch) })
            &&& action_of(next_state(fetched, Response::Succeeded { output: out2 })) == (ActionView::Finish {
                source: s.branch,
                branch: renamed_import(s.branch),
                leftover: None,
            })
        }),
{
    reveal_strlit("import-");
    assert(renamed_import(s.branch).len() == s.branch.len() + 7);
}

/// The session has not yet asked git to change anything, or it ended by
/// the user's cancelling.
pub open spec fn before_any_change(s: SessionView) -> bool {
    match s.phase {
        Phase::Verifying | Phase::ListingHeads | Phase::ReadingRefs | Phase::Choosing
        | Phase::Confirming => true,
        Phase::Failed { kind } => kind == FailureKind::Cancelled,
        _ => false,
    }
}

proof fn lemma_unchanged_until(
    states: Seq<SessionView>,
    repos: Seq<RepoModel>,
    answers: Seq<Response>,
    bundle: Map<Seq<char>, Seq<char>>,
    k: int,
)
    requires
        states.len() == answers.len() + 1,
        repos.len() == answers.len() + 1,
        states[0] == initial_state(),
        forall|i: int|
            0 <= i < answers.len() ==> states[i + 1] == next_state(states[i], #[trigger] answers[i])
                && git_answers(repos[i], action_of(states[i]), answers[i], repos[i + 1], bundle),
        0 <= k < states.len(),
        before_any_change(states[k]),
    ensures
        refs_kept(repos[0], repos[k]),
    decreases k,
{
    if k > 0 {
        let _ = answers[k - 1];
        let s = states[k - 1];
        assert(before_any_change(s)) by {
            if let Phase::Failed { kind } = s.phase {
                assert(kind == FailureKind::Cancelled);
            }
        }
        lemma_unchanged_until(states, repos, answers, bundle, k - 1);
    }
}

/// Cancelling changes nothing: until the session first asks git to change
/// a ref, and when it ends because the user cancelled, the branches, their
/// commits and HEAD are exactly those it started with.
pub proof fn cancel_changes_nothing(
    states: Seq<SessionView>,
    repos: Seq<RepoModel>,
    answers: Seq<Response>,
    bundle: Map<Seq<char>, Seq<char>>,
    k: int,
)
    requires
        states.len() == answers.len() + 1,
        repos.len() == answers.len() + 1,
        states[0] == initial_state(),
        forall|i: int|
            0 <= i < answers.len() ==> states[i + 1] == next_state(states[i], #[trigger] answers[i])
                && git_answers(repos[i], action_of(states[i]), answers[i], repos[i + 1], bundle),
        0 <= k < states.len(),
        before_any_change(states[k]),
    ensures
        repos[k].branches == repos[0].branches,
        repos[k].tips == repos[0].tips,
        repos[k].head == repos[0].head,
{
    lemma_unchanged_until(states, repos, answers, bundle, k);
}

} // verus!
