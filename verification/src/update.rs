//! Decision logic of the self-update check. The network call and the JSON
//! plumbing stay outside; this module decides which reported version field
//! counts and whether an update is needed.

use vstd::prelude::*;

use crate::text::str_eq;

verus! {

/// Picks the version field the registry reports as latest: the first
/// present among the stable maximum, the overall maximum, and the newest
/// upload. Each argument is present or absent, and a present field carries
/// its text, or nothing when it holds no text; the choice goes by presence
/// alone, so a present but text-free field is picked rather than skipped.
pub fn pick_latest_version(
    max_stable: Option<Option<String>>,
    max_version: Option<Option<String>>,
    newest: Option<Option<String>>,
) -> (r: Option<Option<String>>)
    ensures
        max_stable is Some ==> r == max_stable,
        max_stable is None && max_version is Some ==> r == max_version,
        max_stable is None && max_version is None ==> r == newest,
{
    match max_stable {
        Some(v) => Some(v),
        None => match max_version {
            Some(v) => Some(v),
            None => newest,
        },
    }
}

/// Whether the installed version differs from the latest published one, in
/// which case an update is due.
pub fn update_needed(current: &str, latest: &str) -> (r: bool)
    ensures
        r == (current@ != latest@),
{
    !str_eq(current, latest)
}

} // verus!
