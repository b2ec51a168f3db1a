//! Timing phases.
//!
//! A `DoseTimeRange` is one documented phase of a substance's effect: a
//! numeric interval with a unit tag, a derived midpoint, and the
//! wall-clock length (`end` expressed in seconds) kept for display.  A
//! `Duration` names the optional phases of a route: onset, comeup, peak,
//! offset, afterglow, plus the aggregate `duration` and `total` ranges.
//! Conversions rescale start, end and midpoint by the same linear factor;
//! a conversion through an unrecognized unit fails rather than producing a
//! wrong number.
use vstd::prelude::*;

use crate::error::UnitError;
use crate::frac::{add_spec, scale_den_spec, scale_num_spec, Frac};
use crate::units::{convert_time, convert_time_spec, TimeUnits};

verus! {

/// One timing phase: the interval `[start, end]` in `units`, its
/// midpoint, and the wall-clock length of `end` in seconds.
#[derive(Debug, Clone, Copy, PartialEq, Eq, Structural)]
pub struct DoseTimeRange {
    pub duration: Frac,
    pub start: Frac,
    pub end: Frac,
    pub midpoint: Frac,
    pub units: TimeUnits,
}

/// The optional phases of one route of administration.
#[derive(Debug, Clone, Copy, Default)]
pub struct Duration {
    pub afterglow: Option<DoseTimeRange>,
    pub comeup: Option<DoseTimeRange>,
    pub duration: Option<DoseTimeRange>,
    pub offset: Option<DoseTimeRange>,
    pub onset: Option<DoseTimeRange>,
    pub peak: Option<DoseTimeRange>,
    pub total: Option<DoseTimeRange>,
}

impl Default for DoseTimeRange {
    /// The default phase is the zero-length hour range.
    fn default() -> (r: Self)
        ensures
            r == (DoseTimeRange {
                duration: Frac { num: 0, den: 1 },
                start: Frac { num: 0, den: 1 },
                end: Frac { num: 0, den: 1 },
                midpoint: Frac { num: 0, den: 1 },
                units: TimeUnits::Hours,
            }),
    {
        DoseTimeRange::zero()
    }
}

/// All present phases are well-formed.
pub open spec fn duration_wf(d: Duration) -> bool {
    &&& (d.afterglow matches Some(p) ==> p.wf())
    &&& (d.comeup matches Some(p) ==> p.wf())
    &&& (d.duration matches Some(p) ==> p.wf())
    &&& (d.offset matches Some(p) ==> p.wf())
    &&& (d.onset matches Some(p) ==> p.wf())
    &&& (d.peak matches Some(p) ==> p.wf())
    &&& (d.total matches Some(p) ==> p.wf())
}

/// The midpoint of `[s, e]`: `(s + e) / 2`, when it fits.
pub open spec fn midpoint_spec(s: Frac, e: Frac) -> Option<Frac> {
    match add_spec(s, e) {
        Some(m) => scale_den_spec(m, 2),
        None => None,
    }
}

/// Mirror of `as_hours` / `as_minutes` / `as_seconds`: start, end and
/// midpoint each converted from `t.units` to `target`; the wall-clock
/// length is kept as it is.
pub open spec fn rescale_spec(t: DoseTimeRange, target: TimeUnits) -> Result<
    DoseTimeRange,
    UnitError,
> {
    match convert_time_spec(t.start, t.units, target) {
        Err(e) => Err(e),
        Ok(s) => match convert_time_spec(t.end, t.units, target) {
            Err(e) => Err(e),
            Ok(en) => match convert_time_spec(t.midpoint, t.units, target) {
                Err(e) => Err(e),
                Ok(m) => Ok(
                    DoseTimeRange {
                        duration: t.duration,
                        start: s,
                        end: en,
                        midpoint: m,
                        units: target,
                    },
                ),
            },
        },
    }
}

/// Mirror of the in-place conversions: start and end divided by `k`, the
/// midpoint recomputed from the converted endpoints.
pub open spec fn shrink_spec(t: DoseTimeRange, k: u64, target: TimeUnits) -> Result<
    DoseTimeRange,
    UnitError,
> {
    match scale_den_spec(t.start, k) {
        None => Err(UnitError::Overflow),
        Some(s) => match scale_den_spec(t.end, k) {
            None => Err(UnitError::Overflow),
            Some(en) => match midpoint_spec(s, en) {
                None => Err(UnitError::Overflow),
                Some(m) => Ok(
                    DoseTimeRange {
                        duration: t.duration,
                        start: s,
                        end: en,
                        midpoint: m,
                        units: target,
                    },
                ),
            },
        },
    }
}

/// Mirror of the in-place conversions: start and end multiplied by `k`,
/// the midpoint recomputed from the converted endpoints.
pub open spec fn grow_spec(t: DoseTimeRange, k: u64, target: TimeUnits) -> Result<
    DoseTimeRange,
    UnitError,
> {
    match scale_num_spec(t.start, k) {
        None => Err(UnitError::Overflow),
        Some(s) => match scale_num_spec(t.end, k) {
            None => Err(UnitError::Overflow),
            Some(en) => match midpoint_spec(s, en) {
                None => Err(UnitError::Overflow),
                Some(m) => Ok(
                    DoseTimeRange {
                        duration: t.duration,
                        start: s,
                        end: en,
                        midpoint: m,
                        units: target,
                    },
                ),
            },
        },
    }
}

/// Mirror of `to_hours`: minutes and seconds convert, hours is the
/// identity, and an unrecognized source unit is an error.
pub open spec fn to_hours_spec(t: DoseTimeRange) -> Result<DoseTimeRange, UnitError> {
    match t.units {
        TimeUnits::Minutes => shrink_spec(t, 60, TimeUnits::Hours),
        TimeUnits::Seconds => shrink_spec(t, 3600, TimeUnits::Hours),
        TimeUnits::Hours => Ok(t),
        TimeUnits::Invalid => Err(UnitError::UnsupportedUnitConversion),
    }
}

/// Mirror of `to_minutes`.
pub open spec fn to_minutes_spec(t: DoseTimeRange) -> Result<DoseTimeRange, UnitError> {
    match t.units {
        TimeUnits::Hours => grow_spec(t, 60, TimeUnits::Minutes),
        TimeUnits::Seconds => shrink_spec(t, 60, TimeUnits::Minutes),
        TimeUnits::Minutes => Ok(t),
        TimeUnits::Invalid => Err(UnitError::UnsupportedUnitConversion),
    }
}

/// Mirror of `to_seconds`.
pub open spec fn to_seconds_spec(t: DoseTimeRange) -> Result<DoseTimeRange, UnitError> {
    match t.units {
        TimeUnits::Hours => grow_spec(t, 3600, TimeUnits::Seconds),
        TimeUnits::Minutes => grow_spec(t, 60, TimeUnits::Seconds),
        TimeUnits::Seconds => Ok(t),
        TimeUnits::Invalid => Err(UnitError::UnsupportedUnitConversion),
    }
}

/// Mirror of `normalise_to_units`: dispatch on the target unit; an
/// `Invalid` target leaves the range untouched.
pub open spec fn normalise_time_spec(t: DoseTimeRange, units: TimeUnits) -> Result<
    DoseTimeRange,
    UnitError,
> {
    match units {
        TimeUnits::Hours => to_hours_spec(t),
        TimeUnits::Minutes => to_minutes_spec(t),
        TimeUnits::Seconds => to_seconds_spec(t),
        TimeUnits::Invalid => Ok(t),
    }
}

/// Mirror of `new`: midpoint derived from the endpoints, wall-clock
/// length derived from `end`; only minute- and hour-denominated phases
/// are accepted, as documented data uses no others.
pub open spec fn new_range_spec(start: Frac, end: Frac, units: TimeUnits) -> Result<
    DoseTimeRange,
    UnitError,
> {
    match midpoint_spec(start, end) {
        None => Err(UnitError::Overflow),
        Some(m) => match units {
            TimeUnits::Minutes => match scale_num_spec(end, 60) {
                None => Err(UnitError::Overflow),
                Some(d) => Ok(DoseTimeRange { duration: d, start, end, midpoint: m, units }),
            },
            TimeUnits::Hours => match scale_num_spec(end, 3600) {
                None => Err(UnitError::Overflow),
                Some(d) => Ok(DoseTimeRange { duration: d, start, end, midpoint: m, units }),
            },
            _ => Err(UnitError::UnsupportedUnitConversion),
        },
    }
}

impl DoseTimeRange {
    pub open spec fn wf(self) -> bool {
        self.duration.wf() && self.start.wf() && self.end.wf() && self.midpoint.wf()
    }

    /// The zero-length placeholder that stands in for an absent phase.
    pub fn zero() -> (r: DoseTimeRange)
        ensures
            r == (DoseTimeRange {
                duration: Frac { num: 0, den: 1 },
                start: Frac { num: 0, den: 1 },
                end: Frac { num: 0, den: 1 },
                midpoint: Frac { num: 0, den: 1 },
                units: TimeUnits::Hours,
            }),
            r.wf(),
    {
        DoseTimeRange {
            duration: Frac { num: 0, den: 1 },
            start: Frac { num: 0, den: 1 },
            end: Frac { num: 0, den: 1 },
            midpoint: Frac { num: 0, den: 1 },
            units: TimeUnits::Hours,
        }
    }

    /// Build a phase from its documented endpoints and unit.
    pub fn new(start: Frac, end: Frac, units: TimeUnits) -> (r: Result<DoseTimeRange, UnitError>)
        requires
            start.wf(),
            end.wf(),
        ensures
            r == new_range_spec(start, end, units),
            r matches Ok(t) ==> t.wf(),
    {
        let m = match start.checked_add(&end) {
            Some(s) => match s.checked_scale_den(2) {
                Some(m) => m,
                None => {
                    return Err(UnitError::Overflow);
                },
            },
            None => {
                return Err(UnitError::Overflow);
            },
        };
        match units {
            TimeUnits::Minutes => match end.checked_scale_num(60) {
                Some(d) => Ok(DoseTimeRange { duration: d, start, end, midpoint: m, units }),
                None => Err(UnitError::Overflow),
            },
            TimeUnits::Hours => match end.checked_scale_num(3600) {
                Some(d) => Ok(DoseTimeRange { duration: d, start, end, midpoint: m, units }),
                None => Err(UnitError::Overflow),
            },
            _ => Err(UnitError::UnsupportedUnitConversion),
        }
    }

    /// The midpoint of the current endpoints, recomputed on every call so
    /// it is always consistent after a conversion.
    pub fn midpoint(&self) -> (r: Option<Frac>)
        requires
            self.wf(),
        ensures
            r == midpoint_spec(self.start, self.end),
            r matches Some(m) ==> m.wf(),
    {
        match self.start.checked_add(&self.end) {
            Some(s) => s.checked_scale_den(2),
            None => None,
        }
    }

    /// A copy of the phase rescaled to `target` units.
    fn rescaled(&self, target: TimeUnits) -> (r: Result<DoseTimeRange, UnitError>)
        requires
            self.wf(),
        ensures
            r == rescale_spec(*self, target),
            r matches Ok(t) ==> t.wf(),
    {
        let s = match convert_time(&self.start, self.units, target) {
            Ok(s) => s,
            Err(e) => {
                return Err(e);
            },
        };
        let en = match convert_time(&self.end, self.units, target) {
            Ok(en) => en,
            Err(e) => {
                return Err(e);
            },
        };
        let m = match convert_time(&self.midpoint, self.units, target) {
            Ok(m) => m,
            Err(e) => {
                return Err(e);
            },
        };
        Ok(DoseTimeRange { duration: self.duration, start: s, end: en, midpoint: m, units: target })
    }

    /// The phase expressed in hours (pure; `self` is unchanged).
    pub fn as_hours(&self) -> (r: Result<DoseTimeRange, UnitError>)
        requires
            self.wf(),
        ensures
            r == rescale_spec(*self, TimeUnits::Hours),
            r matches Ok(t) ==> t.wf(),
    {
        self.rescaled(TimeUnits::Hours)
    }

    /// The phase expressed in minutes (pure; `self` is unchanged).
    pub fn as_minutes(&self) -> (r: Result<DoseTimeRange, UnitError>)
        requires
            self.wf(),
        ensures
            r == rescale_spec(*self, TimeUnits::Minutes),
            r matches Ok(t) ==> t.wf(),
    {
        self.rescaled(TimeUnits::Minutes)
    }

    /// The phase expressed in seconds (pure; `self` is unchanged).
    pub fn as_seconds(&self) -> (r: Result<DoseTimeRange, UnitError>)
        requires
            self.wf(),
        ensures
            r == rescale_spec(*self, TimeUnits::Seconds),
            r matches Ok(t) ==> t.wf(),
    {
        self.rescaled(TimeUnits::Seconds)
    }

    pub fn set_units(&mut self, units: TimeUnits)
        ensures
            *final(self) == (DoseTimeRange { units, ..*old(self) }),
    {
        self.units = units;
    }

    pub fn set_start(&mut self, start: Frac)
        ensures
            *final(self) == (DoseTimeRange { start, ..*old(self) }),
    {
        self.start = start;
    }

    pub fn set_end(&mut self, end: Frac)
        ensures
            *final(self) == (DoseTimeRange { end, ..*old(self) }),
    {
        self.end = end;
    }

    pub fn set_midpoint(&mut self, midpoint: Frac)
        ensures
            *final(self) == (DoseTimeRange { midpoint, ..*old(self) }),
    {
        self.midpoint = midpoint;
    }

    /// Recompute the midpoint from the current endpoints.  On overflow the
    /// range is left untouched.
    pub fn recalc_midpoint(&mut self) -> (r: Result<(), UnitError>)
        requires
            old(self).wf(),
        ensures
            match midpoint_spec(old(self).start, old(self).end) {
                Some(m) => r == Ok::<(), UnitError>(()) && *final(self) == (DoseTimeRange {
                    midpoint: m,
                    ..*old(self)
                }),
                None => r == Err::<(), UnitError>(UnitError::Overflow) && *final(self) == *old(
                    self,
                ),
            },
            final(self).wf(),
    {
        match self.start.checked_add(&self.end) {
            Some(s) => match s.checked_scale_den(2) {
                Some(m) => {
                    self.midpoint = m;
                    Ok(())
                },
                None => Err(UnitError::Overflow),
            },
            None => Err(UnitError::Overflow),
        }
    }

    /// Convert in place by dividing the endpoints by `k` and recomputing
    /// the midpoint.  On overflow the range is left untouched.
    fn shrink_in_place(&mut self, k: u64, target: TimeUnits) -> (r: Result<(), UnitError>)
        requires
            old(self).wf(),
            k >= 1,
        ensures
            match shrink_spec(*old(self), k, target) {
                Ok(t) => r == Ok::<(), UnitError>(()) && *final(self) == t,
                Err(e) => r == Err::<(), UnitError>(e) && *final(self) == *old(self),
            },
            final(self).wf(),
    {
        let s = match self.start.checked_scale_den(k) {
            Some(s) => s,
            None => {
                return Err(UnitError::Overflow);
            },
        };
        let en = match self.end.checked_scale_den(k) {
            Some(en) => en,
            None => {
                return Err(UnitError::Overflow);
            },
        };
        let m = match s.checked_add(&en) {
            Some(sum) => match sum.checked_scale_den(2) {
                Some(m) => m,
                None => {
                    return Err(UnitError::Overflow);
                },
            },
            None => {
                return Err(UnitError::Overflow);
            },
        };
        self.start = s;
        self.end = en;
        self.midpoint = m;
        self.units = target;
        Ok(())
    }

    /// Convert in place by multiplying the endpoints by `k` and
    /// recomputing the midpoint.  On overflow the range is left untouched.
    fn grow_in_place(&mut self, k: u64, target: TimeUnits) -> (r: Result<(), UnitError>)
        requires
            old(self).wf(),
            k >= 1,
        ensures
            match grow_spec(*old(self), k, target) {
                Ok(t) => r == Ok::<(), UnitError>(()) && *final(self) == t,
                Err(e) => r == Err::<(), UnitError>(e) && *final(self) == *old(self),
            },
            final(self).wf(),
    {
        let s = match self.start.checked_scale_num(k) {
            Some(s) => s,
            None => {
                return Err(UnitError::Overflow);
            },
        };
        let en = match self.end.checked_scale_num(k) {
            Some(en) => en,
            None => {
                return Err(UnitError::Overflow);
            },
        };
        let m = match s.checked_add(&en) {
            Some(sum) => match sum.checked_scale_den(2) {
                Some(m) => m,
                None => {
                    return Err(UnitError::Overflow);
                },
            },
            None => {
                return Err(UnitError::Overflow);
            },
        };
        self.start = s;
        self.end = en;
        self.midpoint = m;
        self.units = target;
        Ok(())
    }

    /// Convert in place to hours; converting a range whose unit is
    /// unrecognized is an error, and the range is left untouched.
    pub fn to_hours(&mut self) -> (r: Result<(), UnitError>)
        requires
            old(self).wf(),
        ensures
            match to_hours_spec(*old(self)) {
                Ok(t) => r == Ok::<(), UnitError>(()) && *final(self) == t,
                Err(e) => r == Err::<(), UnitError>(e) && *final(self) == *old(self),
            },
            final(self).wf(),
    {
        match self.units {
            TimeUnits::Minutes => self.shrink_in_place(60, TimeUnits::Hours),
            TimeUnits::Seconds => self.shrink_in_place(3600, TimeUnits::Hours),
            TimeUnits::Hours => Ok(()),
            TimeUnits::Invalid => Err(UnitError::UnsupportedUnitConversion),
        }
    }

    /// Convert in place to minutes.
    pub fn to_minutes(&mut self) -> (r: Result<(), UnitError>)
        requires
            old(self).wf(),
        ensures
            match to_minutes_spec(*old(self)) {
                Ok(t) => r == Ok::<(), UnitError>(()) && *final(self) == t,
                Err(e) => r == Err::<(), UnitError>(e) && *final(self) == *old(self),
            },
            final(self).wf(),
    {
        match self.units {
            TimeUnits::Hours => self.grow_in_place(60, TimeUnits::Minutes),
            TimeUnits::Seconds => self.shrink_in_place(60, TimeUnits::Minutes),
            TimeUnits::Minutes => Ok(()),
            TimeUnits::Invalid => Err(UnitError::UnsupportedUnitConversion),
        }
    }

    /// Convert in place to seconds.
    pub fn to_seconds(&mut self) -> (r: Result<(), UnitError>)
        requires
            old(self).wf(),
        ensures
            match to_seconds_spec(*old(self)) {
                Ok(t) => r == Ok::<(), UnitError>(()) && *final(self) == t,
                Err(e) => r == Err::<(), UnitError>(e) && *final(self) == *old(self),
            },
            final(self).wf(),
    {
        match self.units {
            TimeUnits::Hours => self.grow_in_place(3600, TimeUnits::Seconds),
            TimeUnits::Minutes => self.grow_in_place(60, TimeUnits::Seconds),
            TimeUnits::Seconds => Ok(()),
            TimeUnits::Invalid => Err(UnitError::UnsupportedUnitConversion),
        }
    }

    /// Convert in place to the given unit; an `Invalid` target is a no-op.
    pub fn normalise_to_units(&mut self, units: TimeUnits) -> (r: Result<(), UnitError>)
        requires
            old(self).wf(),
        ensures
            match normalise_time_spec(*old(self), units) {
                Ok(t) => r == Ok::<(), UnitError>(()) && *final(self) == t,
                Err(e) => r == Err::<(), UnitError>(e) && *final(self) == *old(self),
            },
            final(self).wf(),
    {
        match units {
            TimeUnits::Hours => self.to_hours(),
            TimeUnits::Minutes => self.to_minutes(),
            TimeUnits::Seconds => self.to_seconds(),
            TimeUnits::Invalid => Ok(()),
        }
    }
}

} // verus!
