//! Dose bands and classification tiers.
//!
//! A `DoseRange` is a half-open interval `[start, end)` used for the
//! light, common and strong bands.  `DoseMetadata` carries a route's
//! thresholds and bands, all expressed in one fixed mass unit.
//! `DosageType` is the classification result; its variant order is the
//! evaluation priority of the classifier, not a severity scale.
use vstd::prelude::*;

use crate::frac::Frac;
use crate::rat::{rat_le, rat_lt, Rat};
use crate::units::DoseUnits;

verus! {

/// The classification tiers, in evaluation-priority order.
#[derive(Debug, Clone, Copy, PartialEq, Eq, PartialOrd, Ord, Structural)]
pub enum DosageType {
    Threshold,
    Heavy,
    Common,
    Light,
    Strong,
    BelowThreshold,
}

/// A half-open dose band `[start, end)`.
#[derive(Debug, Clone, Copy, PartialEq, Eq, Structural)]
pub struct DoseRange {
    pub start: Frac,
    pub end: Frac,
}

/// Whether the value `v` falls in the band: `start <= v < end`.
pub open spec fn range_contains(r: DoseRange, v: Rat) -> bool {
    rat_le(r.start@, v) && rat_lt(v, r.end@)
}

impl DoseRange {
    pub open spec fn wf(self) -> bool {
        self.start.wf() && self.end.wf()
    }

    pub fn new(start: Frac, end: Frac) -> (r: DoseRange)
        ensures
            r == (DoseRange { start, end }),
    {
        DoseRange { start, end }
    }

    /// Half-open membership test.
    pub fn contains(&self, v: &Frac) -> (r: bool)
        requires
            self.wf(),
            v.wf(),
        ensures
            r == range_contains(*self, v@),
    {
        self.start.le(v) && v.lt(&self.end)
    }
}

/// A route's documented thresholds and bands, all in `units`.
#[derive(Debug, Clone, Copy, Default)]
pub struct DoseMetadata {
    pub units: DoseUnits,
    pub threshold: Option<Frac>,
    pub heavy: Option<Frac>,
    pub common: Option<DoseRange>,
    pub light: Option<DoseRange>,
    pub strong: Option<DoseRange>,
}

/// All present numeric fields are well-formed.
pub open spec fn dose_metadata_wf(m: DoseMetadata) -> bool {
    &&& (m.threshold matches Some(t) ==> t.wf())
    &&& (m.heavy matches Some(h) ==> h.wf())
    &&& (m.common matches Some(r) ==> r.wf())
    &&& (m.light matches Some(r) ==> r.wf())
    &&& (m.strong matches Some(r) ==> r.wf())
}

/// The classification rule, applied to an amount `a` already expressed in
/// `m.units`.  The check order is the tie-break contract: heavy first,
/// then exact threshold equality, then the light, common and strong bands,
/// and `BelowThreshold` when nothing matches.
pub open spec fn classify_amount(m: DoseMetadata, a: Rat) -> DosageType {
    if m.heavy matches Some(h) && rat_le(h@, a) {
        DosageType::Heavy
    } else if m.threshold matches Some(t) && crate::rat::rat_eq(a, t@) {
        DosageType::Threshold
    } else if m.light matches Some(r) && range_contains(r, a) {
        DosageType::Light
    } else if m.common matches Some(r) && range_contains(r, a) {
        DosageType::Common
    } else if m.strong matches Some(r) && range_contains(r, a) {
        DosageType::Strong
    } else {
        DosageType::BelowThreshold
    }
}

} // verus!
