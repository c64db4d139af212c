//! Locating the repository root: the working directory or its parent only.
use vstd::prelude::*;

verus! {

/// Where the repository root is, relative to the working directory.
#[derive(Debug, Clone, Copy, PartialEq, Eq, Structural)]
pub enum RepoRootChoice {
    Current,
    Parent,
    NotFound,
}

/// Chooses the root from whether the working directory holds a `.git`
/// marker and whether its parent does (`None` when there is no parent).
/// No other directory is ever considered.
pub fn choose_repo_root(current_has_marker: bool, parent_has_marker: Option<bool>) -> (r:
    RepoRootChoice)
    ensures
        r == (if current_has_marker {
            RepoRootChoice::Current
        } else if parent_has_marker == Some(true) {
            RepoRootChoice::Parent
        } else {
            RepoRootChoice::NotFound
        }),
{
    if current_has_marker {
        RepoRootChoice::Current
    } else if parent_has_marker == Some(true) {
        RepoRootChoice::Parent
    } else {
        RepoRootChoice::NotFound
    }
}

} // verus!
