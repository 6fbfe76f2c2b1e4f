//! Utilities to work with range bounds and ranges

use crate::anyrange::AnyInclusiveRange;
use core::ops::Range;
use core::ops::RangeInclusive;
use vstd::prelude::*;

verus! {

/// The half-open resolution of `bounds` against the domain
/// `[min_incl, max_excl)`: a carried inclusive end maps to the following
/// element (saturating at the numeric maximum), an unspecified start or end
/// to the matching domain edge, and each resolved boundary must lie within
/// `min_incl..=max_excl`.
pub open spec fn spec_resolve_exclusive_u64(
    bounds: AnyInclusiveRange<u64>,
    min_incl: u64,
    max_excl: u64,
) -> Option<(u64, u64)> {
    let start = match bounds.spec_start_bound() {
        Some(s) => s,
        None => min_incl,
    };
    let end = match bounds.spec_end_bound() {
        Some(e) => if e == u64::MAX {
            u64::MAX
        } else {
            (e + 1) as u64
        },
        None => max_excl,
    };
    if start < min_incl || start > max_excl || end < min_incl || end > max_excl {
        None
    } else {
        Some((start, end))
    }
}

/// The half-open resolution over `usize`, as [`spec_resolve_exclusive_u64`].
pub open spec fn spec_resolve_exclusive_usize(
    bounds: AnyInclusiveRange<usize>,
    min_incl: usize,
    max_excl: usize,
) -> Option<(usize, usize)> {
    let start = match bounds.spec_start_bound() {
        Some(s) => s,
        None => min_incl,
    };
    let end = match bounds.spec_end_bound() {
        Some(e) => if e == usize::MAX {
            usize::MAX
        } else {
            (e + 1) as usize
        },
        None => max_excl,
    };
    if start < min_incl || start > max_excl || end < min_incl || end > max_excl {
        None
    } else {
        Some((start, end))
    }
}

/// The inclusive resolution of `bounds` against the domain
/// `[min_incl, max_excl)`: an unspecified end maps to the last element of
/// the domain (saturating at zero for an empty domain), and each resolved
/// boundary must lie strictly below `max_excl`.
pub open spec fn spec_resolve_inclusive_u64(
    bounds: AnyInclusiveRange<u64>,
    min_incl: u64,
    max_excl: u64,
) -> Option<(u64, u64)> {
    let start = match bounds.spec_start_bound() {
        Some(s) => s,
        None => min_incl,
    };
    let end_incl = match bounds.spec_end_bound() {
        Some(e) => e,
        None => if max_excl == 0 {
            0u64
        } else {
            (max_excl - 1) as u64
        },
    };
    if start < min_incl || start >= max_excl || end_incl < min_incl || end_incl >= max_excl {
        None
    } else {
        Some((start, end_incl))
    }
}

/// The inclusive resolution over `usize`, as [`spec_resolve_inclusive_u64`].
pub open spec fn spec_resolve_inclusive_usize(
    bounds: AnyInclusiveRange<usize>,
    min_incl: usize,
    max_excl: usize,
) -> Option<(usize, usize)> {
    let start = match bounds.spec_start_bound() {
        Some(s) => s,
        None => min_incl,
    };
    let end_incl = match bounds.spec_end_bound() {
        Some(e) => e,
        None => if max_excl == 0 {
            0usize
        } else {
            (max_excl - 1) as usize
        },
    };
    if start < min_incl || start >= max_excl || end_incl < min_incl || end_incl >= max_excl {
        None
    } else {
        Some((start, end_incl))
    }
}

/// Resolves `bounds` to a half-open boundary pair, per
/// [`spec_resolve_exclusive_u64`].
pub fn resolve_exclusive_u64(bounds: AnyInclusiveRange<u64>, min_incl: u64, max_excl: u64) -> (r:
    Option<(u64, u64)>)
    ensures
        r == spec_resolve_exclusive_u64(bounds, min_incl, max_excl),
{
    // Compute the bounds
    let start: u64 = match bounds.start_bound() {
        Some(start) => start,
        None => min_incl,
    };
    let end: u64 = match bounds.end_bound() {
        Some(before_end) => before_end.saturating_add(1),
        None => max_excl,
    };

    // Validate the range
    if start < min_incl || start > max_excl {
        return None;
    }
    if end < min_incl || end > max_excl {
        return None;
    }
    Some((start, end))
}

/// Resolves `bounds` to a half-open boundary pair, per
/// [`spec_resolve_exclusive_usize`].
pub fn resolve_exclusive_usize(
    bounds: AnyInclusiveRange<usize>,
    min_incl: usize,
    max_excl: usize,
) -> (r: Option<(usize, usize)>)
    ensures
        r == spec_resolve_exclusive_usize(bounds, min_incl, max_excl),
{
    // Compute the bounds
    let start: usize = match bounds.start_bound() {
        Some(start) => start,
        None => min_incl,
    };
    let end: usize = match bounds.end_bound() {
        Some(before_end) => before_end.saturating_add(1),
        None => max_excl,
    };

    // Validate the range
    if start < min_incl || start > max_excl {
        return None;
    }
    if end < min_incl || end > max_excl {
        return None;
    }
    Some((start, end))
}

/// Resolves `bounds` to an inclusive boundary pair, per
/// [`spec_resolve_inclusive_u64`].
pub fn resolve_inclusive_u64(bounds: AnyInclusiveRange<u64>, min_incl: u64, max_excl: u64) -> (r:
    Option<(u64, u64)>)
    ensures
        r == spec_resolve_inclusive_u64(bounds, min_incl, max_excl),
{
    // Compute the bounds
    let start: u64 = match bounds.start_bound() {
        Some(start) => start,
        None => min_incl,
    };
    let end_incl: u64 = match bounds.end_bound() {
        Some(end) => end,
        None => max_excl.saturating_sub(1),
    };

    // Validate the range
    if start < min_incl || start >= max_excl {
        return None;
    }
    if end_incl < min_incl || end_incl >= max_excl {
        return None;
    }
    Some((start, end_incl))
}

/// Resolves `bounds` to an inclusive boundary pair, per
/// [`spec_resolve_inclusive_usize`].
pub fn resolve_inclusive_usize(
    bounds: AnyInclusiveRange<usize>,
    min_incl: usize,
    max_excl: usize,
) -> (r: Option<(usize, usize)>)
    ensures
        r == spec_resolve_inclusive_usize(bounds, min_incl, max_excl),
{
    // Compute the bounds
    let start: usize = match bounds.start_bound() {
        Some(start) => start,
        None => min_incl,
    };
    let end_incl: usize = match bounds.end_bound() {
        Some(end) => end,
        None => max_excl.saturating_sub(1),
    };

    // Validate the range
    if start < min_incl || start >= max_excl {
        return None;
    }
    if end_incl < min_incl || end_incl >= max_excl {
        return None;
    }
    Some((start, end_incl))
}

/// The half-open converter on the domain `[0, n)`: an unbounded range
/// resolves to the whole domain, a lower bound `k <= n` is kept with the
/// end defaulting to `n`, an upper bound `e` maps to the half-open end
/// `e + 1`, and at the top of the numeric domain the end saturates at
/// `u64::MAX` instead of overflowing.
pub proof fn lemma_resolve_exclusive_forms(k: u64, e: u64, n: u64)
    ensures
        spec_resolve_exclusive_u64(AnyInclusiveRange::Full, 0, n) == Some((0u64, n)),
        k <= n ==> spec_resolve_exclusive_u64(AnyInclusiveRange::From { start: k }, 0, n) == Some(
            (k, n),
        ),
        k > n ==> spec_resolve_exclusive_u64(AnyInclusiveRange::From { start: k }, 0, n) is None,
        e < u64::MAX && e + 1 <= n ==> spec_resolve_exclusive_u64(
            AnyInclusiveRange::To { end: e },
            0,
            n,
        ) == Some((0u64, (e + 1) as u64)),
        spec_resolve_exclusive_u64(AnyInclusiveRange::To { end: u64::MAX }, 0, u64::MAX) == Some(
            (0u64, u64::MAX),
        ),
{
}

/// An extension trait for ranges: building a concrete, validated range out
/// of an optionally-bounded range descriptor and a `[min_incl, max_excl)`
/// domain.
pub trait RangeExt<T>: Sized {
    /// Whether this concrete range stands for the boundary pair
    /// `(start, end)` produced by the resolution.
    spec fn abstracts(self, start: T, end: T) -> bool;

    /// The boundary pair that the resolution produces: `None` where the
    /// resolved range does not fit the domain.
    spec fn spec_from_range_bounds(bounds: AnyInclusiveRange<T>, min_incl: T, max_excl: T) -> Option<
        (T, T),
    >;

    /// Creates `Self` from the given range bounds and validates that it is
    /// within `min_incl` and `max_excl`.
    fn from_range_bounds(bounds: AnyInclusiveRange<T>, min_incl: T, max_excl: T) -> (r: Option<
        Self,
    >)
        ensures
            match Self::spec_from_range_bounds(bounds, min_incl, max_excl) {
                Some(p) => r matches Some(c) && c.abstracts(p.0, p.1),
                None => r is None,
            },
    ;
}

impl RangeExt<u64> for Range<u64> {
    open spec fn abstracts(self, start: u64, end: u64) -> bool {
        self.start == start && self.end == end
    }

    open spec fn spec_from_range_bounds(
        bounds: AnyInclusiveRange<u64>,
        min_incl: u64,
        max_excl: u64,
    ) -> Option<(u64, u64)> {
        spec_resolve_exclusive_u64(bounds, min_incl, max_excl)
    }

    fn from_range_bounds(bounds: AnyInclusiveRange<u64>, min_incl: u64, max_excl: u64) -> (r:
        Option<Self>) {
        match resolve_exclusive_u64(bounds, min_incl, max_excl) {
            Some((start, end)) => Some(Range { start, end }),
            None => None,
        }
    }
}

impl RangeExt<usize> for Range<usize> {
    open spec fn abstracts(self, start: usize, end: usize) -> bool {
        self.start == start && self.end == end
    }

    open spec fn spec_from_range_bounds(
        bounds: AnyInclusiveRange<usize>,
        min_incl: usize,
        max_excl: usize,
    ) -> Option<(usize, usize)> {
        spec_resolve_exclusive_usize(bounds, min_incl, max_excl)
    }

    fn from_range_bounds(bounds: AnyInclusiveRange<usize>, min_incl: usize, max_excl: usize) -> (r:
        Option<Self>) {
        match resolve_exclusive_usize(bounds, min_incl, max_excl) {
            Some((start, end)) => Some(Range { start, end }),
            None => None,
        }
    }
}

impl RangeExt<u64> for RangeInclusive<u64> {
    open spec fn abstracts(self, start: u64, end: u64) -> bool {
        self@.start == start && self@.end == end && !self@.exhausted
    }

    open spec fn spec_from_range_bounds(
        bounds: AnyInclusiveRange<u64>,
        min_incl: u64,
        max_excl: u64,
    ) -> Option<(u64, u64)> {
        spec_resolve_inclusive_u64(bounds, min_incl, max_excl)
    }

    fn from_range_bounds(bounds: AnyInclusiveRange<u64>, min_incl: u64, max_excl: u64) -> (r:
        Option<Self>) {
        match resolve_inclusive_u64(bounds, min_incl, max_excl) {
            Some((start, end_incl)) => Some(RangeInclusive::new(start, end_incl)),
            None => None,
        }
    }
}

impl RangeExt<usize> for RangeInclusive<usize> {
    open spec fn abstracts(self, start: usize, end: usize) -> bool {
        self@.start == start && self@.end == end && !self@.exhausted
    }

    open spec fn spec_from_range_bounds(
        bounds: AnyInclusiveRange<usize>,
        min_incl: usize,
        max_excl: usize,
    ) -> Option<(usize, usize)> {
        spec_resolve_inclusive_usize(bounds, min_incl, max_excl)
    }

    fn from_range_bounds(bounds: AnyInclusiveRange<usize>, min_incl: usize, max_excl: usize) -> (r:
        Option<Self>) {
        match resolve_inclusive_usize(bounds, min_incl, max_excl) {
            Some((start, end_incl)) => Some(RangeInclusive::new(start, end_incl)),
            None => None,
        }
    }
}

} // verus!
