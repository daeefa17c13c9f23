//! What an export bundles: the whole history of the default branch, or the
//! commits of another branch since it left the default branch.
use vstd::prelude::*;
use crate::error::QSyncError;
use crate::names::{same_as_default, is_default_branch};

verus! {

/// The commits that a bundle covers.
#[derive(Debug, Clone)]
pub enum ExportRange {
    /// Every commit reachable from the branch, down to its root.
    FullHistory { branch: String },
    /// The commits of `branch` that are not reachable from `base`.
    Since { base: String, branch: String },
}

/// The revision argument that git takes for a range.
pub open spec fn revision_of(base: Option<Seq<char>>, branch: Seq<char>) -> Seq<char> {
    match base {
        Some(b) => b + ".."@ + branch,
        None => branch,
    }
}

impl ExportRange {
    /// The merge base that bounds the range, if any.
    pub open spec fn base_view(&self) -> Option<Seq<char>> {
        match self {
            ExportRange::FullHistory { .. } => None,
            ExportRange::Since { base, .. } => Some(base@),
        }
    }

    /// The branch whose commits the range holds.
    pub open spec fn branch_view(&self) -> Seq<char> {
        match self {
            ExportRange::FullHistory { branch } => branch@,
            ExportRange::Since { branch, .. } => branch@,
        }
    }

    /// The range as git's revision argument: `branch` or `base..branch`.
    pub fn revision(&self) -> (r: String)
        ensures
            r@ == revision_of(self.base_view(), self.branch_view()),
    {
        match self {
            ExportRange::FullHistory { branch } => branch.clone(),
            ExportRange::Since { base, branch } => {
                let mut r = base.clone();
                r.append("..");
                r.append(branch.as_str());
                r
            },
        }
    }
}

/// Whether exporting `branch` needs the merge base with the default branch.
pub fn needs_merge_base(branch: &str, default_branch: &str) -> (r: bool)
    ensures
        r == !same_as_default(branch@, default_branch@),
{
    !is_default_branch(branch, default_branch)
}

/// The range to export for `branch`: its whole history where it is the
/// default branch, else the commits since `merge_base`, its merge base with
/// the default branch (`None` where none was found, which is an error).
pub fn export_range(branch: &str, default_branch: &str, merge_base: Option<String>) -> (r: Result<
    ExportRange,
    QSyncError,
>)
    ensures
        same_as_default(branch@, default_branch@) ==> (r matches Ok(ExportRange::FullHistory { branch: b }) && b@ == branch@),
        !same_as_default(branch@, default_branch@) ==> match merge_base {
            Some(m) => r matches Ok(ExportRange::Since { base, branch: b }) && base@ == m@ && b@ == branch@,
            None => r matches Err(QSyncError::BranchResolutionFailed { .. }),
        },
{
    if is_default_branch(branch, default_branch) {
        Ok(ExportRange::FullHistory { branch: String::from_str(branch) })
    } else {
        match merge_base {
            Some(m) => Ok(ExportRange::Since { base: m, branch: String::from_str(branch) }),
            None => Err(
                QSyncError::BranchResolutionFailed {
                    reason: String::from_str("Cannot find merge base with the default branch"),
                },
            ),
        }
    }
}

} // verus!
