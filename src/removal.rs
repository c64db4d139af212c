//! Decisions of the removal engine: the two managed directories go together.
use vstd::prelude::*;
use crate::errors::UninstallError;

verus! {

/// Which managed directories to remove: the templates directory `.ai/` and
/// the tool configuration directory `.cursor/`.
#[derive(Debug, Clone, Copy, PartialEq, Eq, Structural)]
pub struct RemovalSet {
    pub templates_dir: bool,
    pub config_dir: bool,
}

/// The next step of an uninstall.
#[derive(Debug, Clone, Copy, PartialEq, Eq, Structural)]
pub enum RemovalStep {
    /// Neither directory exists: success with nothing done.
    NothingToRemove,
    /// Ask once before removing these directories.
    Confirm(RemovalSet),
    /// Remove these directories.
    Remove(RemovalSet),
}

/// Decides the uninstall from which managed directories exist: nothing when
/// neither does; otherwise remove those that exist, after one confirmation
/// unless `force` is set.
pub fn plan_removal(templates_exists: bool, config_exists: bool, force: bool) -> (r: RemovalStep)
    ensures
        !templates_exists && !config_exists ==> r == RemovalStep::NothingToRemove,
        (templates_exists || config_exists) && force ==> r == RemovalStep::Remove(
            RemovalSet { templates_dir: templates_exists, config_dir: config_exists },
        ),
        (templates_exists || config_exists) && !force ==> r == RemovalStep::Confirm(
            RemovalSet { templates_dir: templates_exists, config_dir: config_exists },
        ),
{
    if !templates_exists && !config_exists {
        return RemovalStep::NothingToRemove;
    }
    let set = RemovalSet { templates_dir: templates_exists, config_dir: config_exists };
    if force {
        RemovalStep::Remove(set)
    } else {
        RemovalStep::Confirm(set)
    }
}

/// The answer to the removal question: yes removes `set`, no cancels.
pub fn confirm_removal(set: RemovalSet, confirmed: bool) -> (r: Result<RemovalSet, UninstallError>)
    ensures
        confirmed ==> r == Ok::<RemovalSet, UninstallError>(set),
        !confirmed ==> r is Err && r->Err_0 is Cancelled,
{
    if confirmed {
        Ok(set)
    } else {
        Err(UninstallError::Cancelled)
    }
}

} // verus!
