//! The effect-intensity evaluator.
//!
//! Given an ingestion and the hours elapsed since it, the evaluator walks
//! the route's phases in fixed order — onset, comeup, peak, offset — using
//! each phase's midpoint, expressed in hours, as its effective length:
//! onset contributes 0, comeup rises linearly from 0 to 1, peak holds 1,
//! offset falls linearly from 1 to 0, and time past every phase yields 0.
//! The afterglow phase is documented data but deliberately not consumed.
//! A below-threshold dose yields 0 with no phase walk at all.
//!
//! The executable walk is mirrored exactly by `calc_effect_spec`; the
//! value-level laws about the walk are proved in `laws`.
use vstd::prelude::*;

use crate::dose::DosageType;
use crate::error::UnitError;
use crate::frac::{add_spec, div_spec, scale_den_spec, sub_spec, Frac};
use crate::rat::rat_le;
use crate::substance::{dosage_type_spec, roa_wf, Ingestion, RouteOfAdministration};
use crate::timerange::DoseTimeRange;
use crate::units::TimeUnits;

verus! {

/// The divisor that turns `start + end` into a midpoint in hours: 2 for a
/// phase given in hours, 2·60 for minutes, 2·3600 for seconds.
pub open spec fn hours_mid_den(u: TimeUnits) -> u64 {
    match u {
        TimeUnits::Hours => 2u64,
        TimeUnits::Minutes => 120u64,
        TimeUnits::Seconds => 7200u64,
        TimeUnits::Invalid => 0u64,
    }
}

/// Mirror of `mid_hours`: the phase's midpoint expressed in hours, or an
/// error for an unrecognized unit or an overflowing exact result.
pub open spec fn mid_hours_spec(p: DoseTimeRange) -> Result<Frac, UnitError> {
    if p.units is Invalid {
        Err(UnitError::UnsupportedUnitConversion)
    } else {
        match add_spec(p.start, p.end) {
            None => Err(UnitError::Overflow),
            Some(s) => match scale_den_spec(s, hours_mid_den(p.units)) {
                None => Err(UnitError::Overflow),
                Some(m) => Ok(m),
            },
        }
    }
}

/// Mirror of the offset step: linear fall from 1 to 0 across the
/// midpoint; past it, and for an absent or zero-length phase, 0.
pub open spec fn walk_offset_spec(off: Option<DoseTimeRange>, e: Frac) -> Result<Frac, UnitError> {
    match off {
        None => Ok(Frac { num: 0, den: 1 }),
        Some(p) => match mid_hours_spec(p) {
            Err(er) => Err(er),
            Ok(m) => if m.num == 0 {
                Ok(Frac { num: 0, den: 1 })
            } else if rat_le(e@, m@) {
                match div_spec(e, m) {
                    None => Err(UnitError::Overflow),
                    Some(t) => Ok(Frac { num: (t.den - t.num) as u64, den: t.den }),
                }
            } else {
                Ok(Frac { num: 0, den: 1 })
            },
        },
    }
}

/// Mirror of the peak step: constant 1 up to the midpoint, then the
/// remaining time is handed to the offset step.
pub open spec fn walk_peak_spec(
    pk: Option<DoseTimeRange>,
    off: Option<DoseTimeRange>,
    e: Frac,
) -> Result<Frac, UnitError> {
    match pk {
        None => walk_offset_spec(off, e),
        Some(p) => match mid_hours_spec(p) {
            Err(er) => Err(er),
            Ok(m) => if rat_le(e@, m@) {
                Ok(Frac { num: 1, den: 1 })
            } else {
                match sub_spec(e, m) {
                    None => Err(UnitError::Overflow),
                    Some(rem) => walk_offset_spec(off, rem),
                }
            },
        },
    }
}

/// Mirror of the comeup step: linear rise from 0 to 1 across the
/// midpoint; a zero-length comeup is skipped without consuming time.
pub open spec fn walk_comeup_spec(
    cu: Option<DoseTimeRange>,
    pk: Option<DoseTimeRange>,
    off: Option<DoseTimeRange>,
    e: Frac,
) -> Result<Frac, UnitError> {
    match cu {
        None => walk_peak_spec(pk, off, e),
        Some(p) => match mid_hours_spec(p) {
            Err(er) => Err(er),
            Ok(m) => if m.num == 0 {
                walk_peak_spec(pk, off, e)
            } else if rat_le(e@, m@) {
                match div_spec(e, m) {
                    None => Err(UnitError::Overflow),
                    Some(t) => Ok(t),
                }
            } else {
                match sub_spec(e, m) {
                    None => Err(UnitError::Overflow),
                    Some(rem) => walk_peak_spec(pk, off, rem),
                }
            },
        },
    }
}

/// Mirror of the onset step: 0 up to the midpoint, then the remaining
/// time is handed on.
pub open spec fn walk_onset_spec(
    on: Option<DoseTimeRange>,
    cu: Option<DoseTimeRange>,
    pk: Option<DoseTimeRange>,
    off: Option<DoseTimeRange>,
    e: Frac,
) -> Result<Frac, UnitError> {
    match on {
        None => walk_comeup_spec(cu, pk, off, e),
        Some(p) => match mid_hours_spec(p) {
            Err(er) => Err(er),
            Ok(m) => if rat_le(e@, m@) {
                Ok(Frac { num: 0, den: 1 })
            } else {
                match sub_spec(e, m) {
                    None => Err(UnitError::Overflow),
                    Some(rem) => walk_comeup_spec(cu, pk, off, rem),
                }
            },
        },
    }
}

/// Mirror of `calc_effect`: a below-threshold dose yields 0 without any
/// phase walk; otherwise the walk decides.
pub open spec fn calc_effect_spec(
    roa: RouteOfAdministration,
    amount: Frac,
    units: crate::units::DoseUnits,
    e: Frac,
) -> Result<Frac, UnitError> {
    match dosage_type_spec(roa.dose_metadata, amount, units) {
        Err(er) => Err(er),
        Ok(t) => if t == DosageType::BelowThreshold {
            Ok(Frac { num: 0, den: 1 })
        } else {
            walk_onset_spec(
                roa.duration.onset,
                roa.duration.comeup,
                roa.duration.peak,
                roa.duration.offset,
                e,
            )
        },
    }
}

/// The phase's midpoint in hours, computed from its endpoints.
fn mid_hours(p: &DoseTimeRange) -> (r: Result<Frac, UnitError>)
    requires
        p.wf(),
    ensures
        r == mid_hours_spec(*p),
        r matches Ok(m) ==> m.wf(),
{
    let k: u64 = match p.units {
        TimeUnits::Hours => 2,
        TimeUnits::Minutes => 120,
        TimeUnits::Seconds => 7200,
        TimeUnits::Invalid => {
            return Err(UnitError::UnsupportedUnitConversion);
        },
    };
    match p.start.checked_add(&p.end) {
        None => Err(UnitError::Overflow),
        Some(s) => match s.checked_scale_den(k) {
            None => Err(UnitError::Overflow),
            Some(m) => Ok(m),
        },
    }
}

impl RouteOfAdministration {
    /// Effect intensity of an ingestion, `time_since_start` hours after
    /// it, in `[0, 1]` exactly.
    #[verifier::rlimit(60)]
    pub fn calc_effect(&self, dosage: Ingestion, time_since_start: Frac) -> (r: Result<
        Frac,
        UnitError,
    >)
        requires
            roa_wf(*self),
            dosage.amount.wf(),
            time_since_start.wf(),
        ensures
            r == calc_effect_spec(*self, dosage.amount, dosage.units, time_since_start),
            r matches Ok(v) ==> v.wf(),
    {
        let dt = match self.dosage_type(&dosage) {
            Ok(t) => t,
            Err(e) => {
                return Err(e);
            },
        };
        if let DosageType::BelowThreshold = dt {
            return Ok(Frac { num: 0, den: 1 });
        }
        let mut t = time_since_start;

        if let Some(onset) = &self.duration.onset {
            let m = match mid_hours(onset) {
                Ok(m) => m,
                Err(e) => {
                    return Err(e);
                },
            };
            if t.le(&m) {
                return Ok(Frac { num: 0, den: 1 });
            }
            t = match t.checked_sub(&m) {
                Some(rem) => rem,
                None => {
                    return Err(UnitError::Overflow);
                },
            };
        }
        if let Some(comeup) = &self.duration.comeup {
            let m = match mid_hours(comeup) {
                Ok(m) => m,
                Err(e) => {
                    return Err(e);
                },
            };
            if !m.is_zero() {
                if t.le(&m) {
                    return match t.checked_div(&m) {
                        Some(q) => Ok(q),
                        None => Err(UnitError::Overflow),
                    };
                }
                t = match t.checked_sub(&m) {
                    Some(rem) => rem,
                    None => {
                        return Err(UnitError::Overflow);
                    },
                };
            }
        }
        if let Some(peak) = &self.duration.peak {
            let m = match mid_hours(peak) {
                Ok(m) => m,
                Err(e) => {
                    return Err(e);
                },
            };
            if t.le(&m) {
                return Ok(Frac { num: 1, den: 1 });
            }
            t = match t.checked_sub(&m) {
                Some(rem) => rem,
                None => {
                    return Err(UnitError::Overflow);
                },
            };
        }
        if let Some(offset) = &self.duration.offset {
            let m = match mid_hours(offset) {
                Ok(m) => m,
                Err(e) => {
                    return Err(e);
                },
            };
            if !m.is_zero() {
                if t.le(&m) {
                    match t.checked_div(&m) {
                        Some(q) => {
                            proof {
                                vstd::arithmetic::mul::lemma_mul_is_commutative(
                                    m.num as int,
                                    t.den as int,
                                );
                            }
                            return Ok(Frac { num: q.den - q.num, den: q.den });
                        },
                        None => {
                            return Err(UnitError::Overflow);
                        },
                    }
                }
            }
        }
        Ok(Frac { num: 0, den: 1 })
    }
}

} // verus!
