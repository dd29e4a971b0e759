//! The decision half of the host version probe.
//!
//! Querying the running host for its version triple is an
//! operating-system call and stands outside this crate; callers hand the
//! probed triple (or `None` when the probe failed) to the function here.

use vstd::prelude::*;

verus! {

/// A host is newer than Windows 8.1 when its major version component is
/// 7 or more. A failed probe counts as newer: the richer modern template
/// is the conservative default.
pub open spec fn version_is_newer_than_windows81(version: Option<(u32, u32, u32)>) -> bool {
    match version {
        Option::None => true,
        Option::Some(v) => v.0 > 6,
    }
}

/// Decides, from a probed `(major, minor, build)` version triple, whether
/// the host's toast subsystem is newer than the Windows 8.1 generation.
/// `None` stands for a probe that was unreachable or reported failure.
pub fn is_newer_than_windows81(version: Option<(u32, u32, u32)>) -> (r: bool)
    ensures
        r == version_is_newer_than_windows81(version),
{
    match version {
        Option::None => true,
        Option::Some((major, _minor, _build)) => major > 6,
    }
}

} // verus!
