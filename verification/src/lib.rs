//! A verified pharmacokinetic engine.
//!
//! Given a substance's documented dose thresholds and phase durations
//! (onset, comeup, peak, offset, afterglow), the library classifies a dose
//! into a tier and computes a time-indexed effect-intensity curve together
//! with the geometry needed to plot it.  All quantities are exact
//! non-negative rationals, so unit conversions are exact inverses and the
//! classification tie-break order is provable.
use vstd::prelude::*;

pub mod dose;
pub mod effect;
pub mod error;
pub mod frac;
pub mod geometry;
pub mod laws;
pub mod roa;
pub mod parse;
pub mod rat;
pub mod substance;
pub mod timerange;
pub mod units;

pub use dose::{DosageType, DoseMetadata, DoseRange};
pub use error::{ApiError, UnitError};
pub use frac::Frac;
pub use roa::ROAs;
pub use substance::{
    DangerousInteraction,
    Ingestion,
    RouteOfAdministration,
    Substance,
    UncertainInteraction,
    UnsafeInteraction,
};
pub use timerange::{DoseTimeRange, Duration};
pub use units::{convert_mass, convert_time, DoseUnits, TimeUnits};

verus! {

} // verus!
