//! What the commands of the tool are given, and what they decide.

use crate::version::Version;
use vstd::prelude::*;

verus! {

/// The arguments of `init`.
#[derive(Debug, Clone, PartialEq, Eq)]
pub struct InitCommandParams {
    pub engine: Option<String>,
}

/// The arguments of `install`.
#[derive(Debug, Clone, PartialEq, Eq)]
pub struct InstallCommandParams {
    pub engine: Option<String>,
    pub force: Option<bool>,
}

/// The arguments of `search`.
#[derive(Debug, Clone, PartialEq, Eq)]
pub struct SearchCommandParams {
    pub query: Option<String>,
}

/// Whether an engine is to be installed, given the version that is here and
/// the one that the catalog offers.
///
/// An engine that is not here is installed. One that is here in the offered
/// version is left alone. One that is here in an older version is replaced
/// only where `force` says so, and one that is here in a newer version is
/// replaced in any case.
pub open spec fn install_needed(local: Option<Version>, offered: Version, force: bool) -> bool {
    match local {
        None => true,
        Some(here) => if offered.precedes(here) {
            true
        } else if here.precedes(offered) {
            force
        } else {
            false
        },
    }
}

/// Whether an engine is to be installed.
pub fn needs_install(local: Option<Version>, offered: Version, force: bool) -> (r: bool)
    ensures
        r == install_needed(local, offered, force),
{
    match local {
        None => true,
        Some(here) => {
            if offered.is_older_than(&here) {
                true
            } else if here.is_older_than(&offered) {
                force
            } else {
                false
            }
        },
    }
}

impl InstallCommandParams {
    /// Whether the user asked to replace an older version.
    pub fn forced(&self) -> (r: bool)
        ensures
            r == (self.force == Some(true)),
    {
        match self.force {
            Some(force) => force,
            None => false,
        }
    }
}

/// Whether the extension `name` is installed here. Nothing is, so far.
pub fn get_local_extension_state(name: &str) -> (installed: bool)
    ensures
        !installed,
{
    false
}

} // verus!
