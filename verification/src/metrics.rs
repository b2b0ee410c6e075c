//! The request counters that the translator reports to. The original
//! process-wide metrics registry is modeled as an injected value, so the
//! contracts can state exactly which counter each branch moves.

use vstd::prelude::*;

verus! {

/// The counters the translator touches: per-method "requests observed" and,
/// for PUT and PATCH, "requests failed".
#[derive(Clone, Copy, Debug, PartialEq, Eq, Structural)]
pub struct MmdsMetrics {
    pub get_observed: u64,
    pub put_observed: u64,
    pub put_failed: u64,
    pub patch_observed: u64,
    pub patch_failed: u64,
}

/// A counter moved up by one; at the type's top it wraps, as the shared
/// counters of the metrics registry do.
pub open spec fn bumped(c: u64) -> u64 {
    if c == u64::MAX {
        0
    } else {
        (c + 1) as u64
    }
}

/// The counters after a GET request: the "get observed" counter moves only
/// on the bare-path branch (`counted`); GET has no failure counter.
pub open spec fn after_get(m: MmdsMetrics, counted: bool) -> MmdsMetrics {
    MmdsMetrics { get_observed: if counted { bumped(m.get_observed) } else { m.get_observed }, ..m }
}

/// The counters after a PUT request: "put observed" always moves; "put
/// failed" moves exactly when the request failed.
pub open spec fn after_put(m: MmdsMetrics, failed: bool) -> MmdsMetrics {
    MmdsMetrics {
        put_observed: bumped(m.put_observed),
        put_failed: if failed { bumped(m.put_failed) } else { m.put_failed },
        ..m
    }
}

/// The counters after a PATCH request: "patch observed" always moves;
/// "patch failed" moves exactly when the request failed.
pub open spec fn after_patch(m: MmdsMetrics, failed: bool) -> MmdsMetrics {
    MmdsMetrics {
        patch_observed: bumped(m.patch_observed),
        patch_failed: if failed { bumped(m.patch_failed) } else { m.patch_failed },
        ..m
    }
}

impl MmdsMetrics {
    /// Fresh counters, all zero.
    pub fn new() -> (m: MmdsMetrics)
        ensures
            m == (MmdsMetrics {
                get_observed: 0,
                put_observed: 0,
                put_failed: 0,
                patch_observed: 0,
                patch_failed: 0,
            }),
    {
        MmdsMetrics {
            get_observed: 0,
            put_observed: 0,
            put_failed: 0,
            patch_observed: 0,
            patch_failed: 0,
        }
    }
}

/// Moves a counter up by one, wrapping at the type's top.
pub(crate) fn bump(c: u64) -> (r: u64)
    ensures
        r == bumped(c),
{
    if c == u64::MAX {
        0
    } else {
        c + 1
    }
}

} // verus!
