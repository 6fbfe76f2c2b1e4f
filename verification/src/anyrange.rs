//! A type-erased inclusive range container

use crate::RangeError;
use core::ops::RangeInclusive;
use vstd::prelude::*;

verus! {

/// A type-erased inclusive range: a range descriptor that may leave either
/// side unspecified. It never itself establishes `start <= end`; validity is
/// only checked when the range is resolved against a concrete domain.
#[derive(Debug, Clone, Copy, PartialEq, Eq, Structural)]
pub enum AnyInclusiveRange<T> {
    /// An unbounded/open range
    Full,
    /// A range with a lower inclusive boundary
    From {
        /// The first element (inclusive)
        start: T,
    },
    /// A range with an upper inclusive boundary
    To {
        /// The last element (inclusive)
        end: T,
    },
    /// A range with a lower and upper inclusive boundary
    FromTo {
        /// The first element (inclusive)
        start: T,
        /// The last element (inclusive)
        end: T,
    },
}

impl<T: Copy> AnyInclusiveRange<T> {
    /// The lower boundary carried by the range, if one is specified.
    pub open spec fn spec_start_bound(self) -> Option<T> {
        match self {
            AnyInclusiveRange::Full | AnyInclusiveRange::To { .. } => None,
            AnyInclusiveRange::From { start } => Some(start),
            AnyInclusiveRange::FromTo { start, .. } => Some(start),
        }
    }

    /// The upper boundary carried by the range, if one is specified.
    pub open spec fn spec_end_bound(self) -> Option<T> {
        match self {
            AnyInclusiveRange::Full | AnyInclusiveRange::From { .. } => None,
            AnyInclusiveRange::To { end } => Some(end),
            AnyInclusiveRange::FromTo { end, .. } => Some(end),
        }
    }

    /// The lower boundary of the range: the carried one if present,
    /// `None` where the lower side is unbounded.
    pub fn start_bound(&self) -> (r: Option<T>)
        ensures
            r == self.spec_start_bound(),
    {
        match self {
            AnyInclusiveRange::Full | AnyInclusiveRange::To { .. } => None,
            AnyInclusiveRange::From { start } => Some(*start),
            AnyInclusiveRange::FromTo { start, .. } => Some(*start),
        }
    }

    /// The upper boundary of the range: the carried one if present,
    /// `None` where the upper side is unbounded.
    pub fn end_bound(&self) -> (r: Option<T>)
        ensures
            r == self.spec_end_bound(),
    {
        match self {
            AnyInclusiveRange::Full | AnyInclusiveRange::From { .. } => None,
            AnyInclusiveRange::To { end } => Some(*end),
            AnyInclusiveRange::FromTo { end, .. } => Some(*end),
        }
    }
}

impl AnyInclusiveRange<u64> {
    /// The start of the range once resolved: the carried lower boundary,
    /// or `start_incl` where the lower side is unspecified.
    pub open spec fn resolved_start(self, start_incl: u64) -> u64 {
        match self.spec_start_bound() {
            Some(start) => start,
            None => start_incl,
        }
    }

    /// The end of the range once resolved: the carried upper boundary,
    /// or `end_incl` where the upper side is unspecified.
    pub open spec fn resolved_end(self, end_incl: u64) -> u64 {
        match self.spec_end_bound() {
            Some(end) => end,
            None => end_incl,
        }
    }

    /// What `to_inclusive` returns: the substituted boundary pair where it
    /// is ordered, and `RangeInvalid` where the end lies before the start.
    pub open spec fn spec_to_inclusive(self, start_incl: u64, end_incl: u64) -> Result<
        (u64, u64),
        RangeError,
    > {
        let start = self.resolved_start(start_incl);
        let end = self.resolved_end(end_incl);
        if start <= end {
            Ok((start, end))
        } else {
            Err(RangeError::RangeInvalid)
        }
    }

    /// Creates an inclusive range from `self`, replacing unspecified
    /// boundaries with the given boundaries if necessary.
    pub fn to_inclusive(&self, start_incl: u64, end_incl: u64) -> (r: Result<
        RangeInclusive<u64>,
        RangeError,
    >)
        ensures
            match self.spec_to_inclusive(start_incl, end_incl) {
                Ok(p) => r matches Ok(ri) && ri@.start == p.0 && ri@.end == p.1 && !ri@.exhausted,
                Err(e) => r == Err::<RangeInclusive<u64>, RangeError>(e),
            },
    {
        // Take or specify boundaries
        let start: u64 = match self {
            AnyInclusiveRange::Full | AnyInclusiveRange::To { .. } => start_incl,
            AnyInclusiveRange::From { start } => *start,
            AnyInclusiveRange::FromTo { start, .. } => *start,
        };
        let end: u64 = match self {
            AnyInclusiveRange::Full | AnyInclusiveRange::From { .. } => end_incl,
            AnyInclusiveRange::To { end } => *end,
            AnyInclusiveRange::FromTo { end, .. } => *end,
        };

        // Validate resulting range
        if start <= end {
            Ok(RangeInclusive::new(start, end))
        } else {
            Err(RangeError::RangeInvalid)
        }
    }

    /// Converts the range into a `usize`-valued range, failing with
    /// `RangeOutOfBounds` where a boundary does not fit into `usize`.
    pub fn convert(self) -> (r: Result<AnyInclusiveRange<usize>, RangeError>)
        ensures
            match r {
                Ok(c) => {
                    &&& self.spec_start_bound() matches Some(s) ==> (c.spec_start_bound() matches
                        Some(cs) && cs == s)
                    &&& self.spec_end_bound() matches Some(e) ==> (c.spec_end_bound() matches Some(
                        ce,
                    ) && ce == e)
                    &&& c.spec_start_bound() is Some <==> self.spec_start_bound() is Some
                    &&& c.spec_end_bound() is Some <==> self.spec_end_bound() is Some
                },
                Err(e) => {
                    &&& e == RangeError::RangeOutOfBounds
                    &&& (self.spec_start_bound() matches Some(s) && s > usize::MAX) || (
                    self.spec_end_bound() matches Some(x) && x > usize::MAX)
                },
            },
            r is Ok <==> (match self.spec_start_bound() {
                Some(s) => s <= usize::MAX,
                None => true,
            } && match self.spec_end_bound() {
                Some(e) => e <= usize::MAX,
                None => true,
            }),
    {
        let max: u64 = usize::MAX as u64;
        match self {
            AnyInclusiveRange::Full => Ok(AnyInclusiveRange::Full),
            AnyInclusiveRange::From { start } => {
                if start <= max {
                    Ok(AnyInclusiveRange::From { start: start as usize })
                } else {
                    Err(RangeError::RangeOutOfBounds)
                }
            },
            AnyInclusiveRange::To { end } => {
                if end <= max {
                    Ok(AnyInclusiveRange::To { end: end as usize })
                } else {
                    Err(RangeError::RangeOutOfBounds)
                }
            },
            AnyInclusiveRange::FromTo { start, end } => {
                if start <= max && end <= max {
                    Ok(AnyInclusiveRange::FromTo { start: start as usize, end: end as usize })
                } else {
                    Err(RangeError::RangeOutOfBounds)
                }
            },
        }
    }
}

/// For every non-empty domain `[0, total)`, a fully unbounded range
/// resolves to the whole domain `0..=(total - 1)`.
pub proof fn lemma_resolve_full(total: u64)
    requires
        total > 0,
    ensures
        AnyInclusiveRange::Full.spec_to_inclusive(0u64, (total - 1) as u64) == Ok::<
            (u64, u64),
            RangeError,
        >((0u64, (total - 1) as u64)),
{
}

/// For every `start < total`, a lower-bounded range resolves to
/// `start..=(total - 1)`.
pub proof fn lemma_resolve_from(start: u64, total: u64)
    requires
        start < total,
    ensures
        (AnyInclusiveRange::From { start }).spec_to_inclusive(0u64, (total - 1) as u64) == Ok::<
            (u64, u64),
            RangeError,
        >((start, (total - 1) as u64)),
{
}

/// For every `end < total`, an upper-bounded range resolves to `0..=end`.
pub proof fn lemma_resolve_to(end: u64, total: u64)
    requires
        end < total,
    ensures
        (AnyInclusiveRange::To { end }).spec_to_inclusive(0u64, (total - 1) as u64) == Ok::<
            (u64, u64),
            RangeError,
        >((0u64, end)),
{
}

/// A doubly-bounded range with `end < total` resolves to exactly its
/// boundaries where they are ordered, and fails with `RangeInvalid` where
/// the end lies before the start.
pub proof fn lemma_resolve_from_to(start: u64, end: u64, total: u64)
    requires
        end < total,
    ensures
        start <= end ==> (AnyInclusiveRange::FromTo { start, end }).spec_to_inclusive(
            0u64,
            (total - 1) as u64,
        ) == Ok::<(u64, u64), RangeError>((start, end)),
        start > end ==> (AnyInclusiveRange::FromTo { start, end }).spec_to_inclusive(
            0u64,
            (total - 1) as u64,
        ) == Err::<(u64, u64), RangeError>(RangeError::RangeInvalid),
{
}

impl AnyInclusiveRange<usize> {
    /// Converts the range into a `u64`-valued range; every `usize` boundary
    /// fits into 64 bits, so the conversion always succeeds.
    pub fn convert(self) -> (r: Result<AnyInclusiveRange<u64>, RangeError>)
        ensures
            r matches Ok(c) && {
                &&& self.spec_start_bound() matches Some(s) ==> (c.spec_start_bound() matches Some(
                    cs,
                ) && cs == s)
                &&& self.spec_end_bound() matches Some(e) ==> (c.spec_end_bound() matches Some(ce)
                    && ce == e)
                &&& c.spec_start_bound() is Some <==> self.spec_start_bound() is Some
                &&& c.spec_end_bound() is Some <==> self.spec_end_bound() is Some
            },
    {
        match self {
            AnyInclusiveRange::Full => Ok(AnyInclusiveRange::Full),
            AnyInclusiveRange::From { start } => Ok(
                AnyInclusiveRange::From { start: start as u64 },
            ),
            AnyInclusiveRange::To { end } => Ok(AnyInclusiveRange::To { end: end as u64 }),
            AnyInclusiveRange::FromTo { start, end } => Ok(
                AnyInclusiveRange::FromTo { start: start as u64, end: end as u64 },
            ),
        }
    }
}

} // verus!
