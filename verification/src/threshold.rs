//! The acceptance rule for modification-quality scores.
//!
//! A caller gives a minimum score and, optionally, a pair `[low, high]`
//! meaning "reject every call whose score lies strictly between `low` and
//! `high`". The rule keeps that band as the closed interval
//! `[low + 1, high - 1]`, so that a score is tested with plain inclusive
//! comparisons.

use crate::error::{refusal_view, ValidationError, ValidationErrorView};
use vstd::prelude::*;

verus! {

/// A closed interval of scores, from `lo` to `hi`.
#[derive(Clone, Copy, Debug, PartialEq, Eq, Structural)]
pub struct Band {
    pub lo: u8,
    pub hi: u8,
}

impl Band {
    /// The ends are in order.
    pub open spec fn wf(self) -> bool {
        self.lo <= self.hi
    }

    /// Whether a score lies in the band, ends included.
    pub open spec fn contains_spec(self, q: u8) -> bool {
        self.lo <= q && q <= self.hi
    }

    /// The band from `lo` to `hi`, or nothing when `hi` is below `lo`.
    pub fn new(lo: u8, hi: u8) -> (r: Option<Band>)
        ensures
            r == (if lo <= hi {
                Some(Band { lo, hi })
            } else {
                None
            }),
    {
        if lo <= hi {
            Some(Band { lo, hi })
        } else {
            None
        }
    }

    /// Whether a score lies in the band, ends included.
    pub fn contains(&self, q: u8) -> (r: bool)
        ensures
            r == self.contains_spec(q),
    {
        self.lo <= q && q <= self.hi
    }
}

/// Acceptance rule for modification-quality scores.
#[derive(Clone, Copy, Debug, PartialEq, Eq, Structural)]
pub enum ThresholdPolicy {
    /// Accept every score that is at least the minimum.
    AtLeast(u8),
    /// Accept every score that is at least the minimum and lies outside the
    /// band.
    AtLeastExcluding(u8, Band),
}

impl ThresholdPolicy {
    /// The band of an excluding policy is never inverted.
    pub open spec fn wf(self) -> bool {
        match self {
            ThresholdPolicy::AtLeast(_) => true,
            ThresholdPolicy::AtLeastExcluding(_, band) => band.wf(),
        }
    }

    /// Whether a score passes the policy.
    pub open spec fn accepts_spec(self, q: u8) -> bool {
        match self {
            ThresholdPolicy::AtLeast(min) => q >= min,
            ThresholdPolicy::AtLeastExcluding(min, band) => q >= min && !band.contains_spec(q),
        }
    }

    /// Whether a score passes the policy.
    pub fn accepts(&self, q: u8) -> (r: bool)
        ensures
            r == self.accepts_spec(q),
    {
        match *self {
            ThresholdPolicy::AtLeast(min) => q >= min,
            ThresholdPolicy::AtLeastExcluding(min, band) => q >= min && !band.contains(q),
        }
    }

    /// The policy for a minimum score and an optional rejection range.
    ///
    /// An absent minimum counts as zero. An absent range excludes nothing.
    /// A range must have exactly two entries, the first not above the
    /// second; a range with no score strictly inside it excludes nothing.
    pub open spec fn derive_spec(min_mod_qual: Option<u8>, reject: Option<Seq<u8>>) -> Result<
        ThresholdPolicy,
        ValidationErrorView,
    > {
        let min = match min_mod_qual {
            Some(m) => m,
            None => 0u8,
        };
        match reject {
            None => Ok(ThresholdPolicy::AtLeast(min)),
            Some(range) => {
                if range.len() != 2 {
                    Err(ValidationErrorView::RejectRangeMalformed)
                } else if range[1] < range[0] {
                    Err(ValidationErrorView::RejectRangeInverted)
                } else if range[1] - range[0] <= 1 {
                    Ok(ThresholdPolicy::AtLeast(min))
                } else {
                    Ok(
                        ThresholdPolicy::AtLeastExcluding(
                            min,
                            Band { lo: (range[0] + 1) as u8, hi: (range[1] - 1) as u8 },
                        ),
                    )
                }
            },
        }
    }

    /// Derives the policy from the two request fields.
    pub fn derive(min_mod_qual: Option<u8>, reject: &Option<Vec<u8>>) -> (r: Result<
        ThresholdPolicy,
        ValidationError,
    >)
        ensures
            refusal_view(r) == Self::derive_spec(min_mod_qual, reject.deep_view()),
            r matches Ok(p) ==> p.wf(),
    {
        let min: u8 = match min_mod_qual {
            Some(m) => m,
            None => 0,
        };
        match reject {
            None => Ok(ThresholdPolicy::AtLeast(min)),
            Some(range) => {
                assert(range.deep_view() =~= range@);
                if range.len() != 2 {
                    return Err(ValidationError::RejectRangeMalformed);
                }
                let low: u8 = range[0];
                let high: u8 = range[1];
                if high < low {
                    Err(ValidationError::RejectRangeInverted)
                } else if high - low <= 1 {
                    Ok(ThresholdPolicy::AtLeast(min))
                } else {
                    // The ends are at least two apart, so the band is never refused.
                    match Band::new(low + 1, high - 1) {
                        Some(band) => Ok(ThresholdPolicy::AtLeastExcluding(min, band)),
                        None => Err(ValidationError::RejectRangeInverted),
                    }
                }
            },
        }
    }
}

/// A range whose ends are equal or adjacent gives the same policy as no
/// range at all.
pub proof fn lemma_narrow_range_excludes_nothing(min_mod_qual: Option<u8>, low: u8, high: u8)
    requires
        high - low == 0 || high - low == 1,
    ensures
        ThresholdPolicy::derive_spec(min_mod_qual, Some(seq![low, high]))
            == ThresholdPolicy::derive_spec(min_mod_qual, None),
{
}

/// A range whose ends are at least two apart excludes exactly the closed
/// band `[low + 1, high - 1]`.
pub proof fn lemma_wide_range_excludes_interior(min_mod_qual: Option<u8>, low: u8, high: u8)
    requires
        high - low >= 2,
    ensures
        ThresholdPolicy::derive_spec(min_mod_qual, Some(seq![low, high])) == Ok::<
            ThresholdPolicy,
            ValidationErrorView,
        >(
            ThresholdPolicy::AtLeastExcluding(
                match min_mod_qual {
                    Some(m) => m,
                    None => 0u8,
                },
                Band { lo: (low + 1) as u8, hi: (high - 1) as u8 },
            ),
        ),
{
}

/// For every ordered range, the derived policy accepts a score exactly when
/// the score reaches the minimum and does not lie strictly between the two
/// ends of the range.
pub proof fn lemma_range_is_non_inclusive(min: u8, low: u8, high: u8, q: u8)
    requires
        low <= high,
    ensures
        ThresholdPolicy::derive_spec(Some(min), Some(seq![low, high])) matches Ok(p) && p.wf() && (
        p.accepts_spec(q) <==> (q >= min && !(low < q && q < high))),
{
}

/// A range is refused exactly when it does not have two entries or its
/// second entry is below its first.
pub proof fn lemma_range_refused(min_mod_qual: Option<u8>, range: Seq<u8>)
    ensures
        ThresholdPolicy::derive_spec(min_mod_qual, Some(range)) is Err <==> (range.len() != 2
            || range[1] < range[0]),
        range.len() != 2 ==> ThresholdPolicy::derive_spec(min_mod_qual, Some(range)) == Err::<
            ThresholdPolicy,
            ValidationErrorView,
        >(ValidationErrorView::RejectRangeMalformed),
        range.len() == 2 && range[1] < range[0] ==> ThresholdPolicy::derive_spec(
            min_mod_qual,
            Some(range),
        ) == Err::<ThresholdPolicy, ValidationErrorView>(ValidationErrorView::RejectRangeInverted),
{
}

} // verus!
