//! Detecting the package manager from the lockfiles present, and the
//! subcommand each manager uses to remove a dependency.

use vstd::prelude::*;

use crate::text::str_eq;

verus! {

/// The manager a project uses, decided by a first-match priority scan
/// over the lockfiles present; without any recognized lockfile the
/// default is npm.
pub open spec fn spec_package_manager(pnpm: bool, yarn: bool, bun: bool) -> Seq<char> {
    if pnpm {
        "pnpm"@
    } else if yarn {
        "yarn"@
    } else if bun {
        "bun"@
    } else {
        "npm"@
    }
}

/// The package manager for a project, given which of the recognized
/// lockfiles are present.
pub fn detect_package_manager(
    pnpm_lock_present: bool,
    yarn_lock_present: bool,
    bun_lock_present: bool,
) -> (r: String)
    ensures
        r@ == spec_package_manager(pnpm_lock_present, yarn_lock_present, bun_lock_present),
{
    if pnpm_lock_present {
        "pnpm".to_owned()
    } else if yarn_lock_present {
        "yarn".to_owned()
    } else if bun_lock_present {
        "bun".to_owned()
    } else {
        "npm".to_owned()
    }
}

/// The subcommand a manager uses to remove a dependency: `uninstall` for
/// npm, `remove` for pnpm, yarn and bun, and nothing for an unrecognized
/// manager.
pub open spec fn spec_uninstall_verb(manager: Seq<char>) -> Option<Seq<char>> {
    if manager == "npm"@ {
        Some("uninstall"@)
    } else if manager == "pnpm"@ || manager == "yarn"@ || manager == "bun"@ {
        Some("remove"@)
    } else {
        None
    }
}

pub fn uninstall_verb(manager: &str) -> (r: Option<String>)
    ensures
        match (r, spec_uninstall_verb(manager@)) {
            (Some(a), Some(b)) => a@ == b,
            (None, None) => true,
            _ => false,
        },
{
    if str_eq(manager, "npm") {
        Some("uninstall".to_owned())
    } else if str_eq(manager, "pnpm") || str_eq(manager, "yarn") || str_eq(manager, "bun") {
        Some("remove".to_owned())
    } else {
        None
    }
}

} // verus!
