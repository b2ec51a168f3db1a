//! Value-level laws of the engine.
//!
//! The executable functions are specified by exact structural mirrors;
//! this module proves what those mirrors mean for the mathematical values:
//! a below-threshold dose yields zero intensity at every elapsed time;
//! every intensity lies in `[0, 1]`; the phase walk depends on the elapsed
//! time only through its value, so a zero-length onset behaves like an
//! absent one; and the cumulative total always coincides with the final
//! estimate vertex.  The unit round-trip laws live beside the conversion
//! functions in `units`.
use vstd::prelude::*;

use crate::dose::DosageType;
use crate::effect::{
    calc_effect_spec,
    mid_hours_spec,
    walk_comeup_spec,
    walk_offset_spec,
    walk_onset_spec,
    walk_peak_spec,
};
use crate::error::UnitError;
use crate::frac::Frac;
use crate::geometry::{cumulative_total_spec, estimate_points_spec};
use crate::rat::{
    lemma_rat_div_congr,
    lemma_rat_le_congr,
    lemma_rat_sub_congr,
    rat_div,
    rat_eq,
    rat_le,
    rat_one,
    rat_sub,
    rat_zero,
};
use crate::substance::{dosage_type_spec, roa_wf, RouteOfAdministration};
use crate::timerange::{Duration, DoseTimeRange};
use crate::units::DoseUnits;

verus! {

proof fn pos_mul(x: int, y: int)
    requires
        x >= 1,
        y >= 1,
    ensures
        x * y >= 1,
{
    assert(x * y >= 1) by (nonlinear_arith)
        requires
            x >= 1,
            y >= 1,
    ;
}

proof fn nonneg_mul(x: int, y: int)
    ensures
        x >= 0 && y >= 0 ==> x * y >= 0,
        x == 0 ==> x * y == 0,
{
    assert((x >= 0 && y >= 0 ==> x * y >= 0) && (x == 0 ==> x * y == 0)) by (nonlinear_arith);
}

/// A midpoint that the mirror reports is well-formed.
proof fn lemma_mid_wf(p: DoseTimeRange)
    requires
        p.wf(),
    ensures
        mid_hours_spec(p) matches Ok(m) ==> m.wf(),
{
    if !(p.units is Invalid) {
        pos_mul(p.start.den as int, p.end.den as int);
        match crate::frac::add_spec(p.start, p.end) {
            Some(s) => {
                pos_mul(s.den as int, crate::effect::hours_mid_den(p.units) as int);
            },
            None => {},
        }
    }
}

/// A below-threshold dose yields zero intensity at every elapsed time:
/// the evaluator returns without walking any phase.
pub proof fn lemma_below_threshold_effect_zero(
    roa: RouteOfAdministration,
    amount: Frac,
    units: DoseUnits,
    e: Frac,
)
    requires
        dosage_type_spec(roa.dose_metadata, amount, units) == Ok::<DosageType, UnitError>(
            DosageType::BelowThreshold,
        ),
    ensures
        calc_effect_spec(roa, amount, units, e) == Ok::<Frac, UnitError>(Frac { num: 0, den: 1 }),
{
}

proof fn lemma_walk_offset_bounds(off: Option<DoseTimeRange>, e: Frac)
    requires
        off matches Some(p) ==> p.wf(),
        e.wf(),
    ensures
        walk_offset_spec(off, e) matches Ok(v) ==> v.wf() && rat_le(rat_zero(), v@) && rat_le(
            v@,
            rat_one(),
        ),
{
    match off {
        None => {},
        Some(p) => {
            lemma_mid_wf(p);
            match mid_hours_spec(p) {
                Err(_) => {},
                Ok(m) => {
                    if m.num != 0 && rat_le(e@, m@) {
                        match crate::frac::div_spec(e, m) {
                            None => {},
                            Some(t) => {
                                pos_mul(e.den as int, m.num as int);
                                vstd::arithmetic::mul::lemma_mul_is_commutative(
                                    m.num as int,
                                    e.den as int,
                                );
                            },
                        }
                    }
                },
            }
        },
    }
}

proof fn lemma_walk_peak_bounds(pk: Option<DoseTimeRange>, off: Option<DoseTimeRange>, e: Frac)
    requires
        pk matches Some(p) ==> p.wf(),
        off matches Some(p) ==> p.wf(),
        e.wf(),
    ensures
        walk_peak_spec(pk, off, e) matches Ok(v) ==> v.wf() && rat_le(rat_zero(), v@) && rat_le(
            v@,
            rat_one(),
        ),
{
    match pk {
        None => {
            lemma_walk_offset_bounds(off, e);
        },
        Some(p) => {
            lemma_mid_wf(p);
            match mid_hours_spec(p) {
                Err(_) => {},
                Ok(m) => {
                    if !rat_le(e@, m@) {
                        match crate::frac::sub_spec(e, m) {
                            None => {},
                            Some(rem) => {
                                pos_mul(e.den as int, m.den as int);
                                lemma_walk_offset_bounds(off, rem);
                            },
                        }
                    }
                },
            }
        },
    }
}

proof fn lemma_walk_comeup_bounds(
    cu: Option<DoseTimeRange>,
    pk: Option<DoseTimeRange>,
    off: Option<DoseTimeRange>,
    e: Frac,
)
    requires
        cu matches Some(p) ==> p.wf(),
        pk matches Some(p) ==> p.wf(),
        off matches Some(p) ==> p.wf(),
        e.wf(),
    ensures
        walk_comeup_spec(cu, pk, off, e) matches Ok(v) ==> v.wf() && rat_le(rat_zero(), v@)
            && rat_le(v@, rat_one()),
{
    match cu {
        None => {
            lemma_walk_peak_bounds(pk, off, e);
        },
        Some(p) => {
            lemma_mid_wf(p);
            match mid_hours_spec(p) {
                Err(_) => {},
                Ok(m) => {
                    if m.num == 0 {
                        lemma_walk_peak_bounds(pk, off, e);
                    } else if rat_le(e@, m@) {
                        match crate::frac::div_spec(e, m) {
                            None => {},
                            Some(t) => {
                                pos_mul(e.den as int, m.num as int);
                                vstd::arithmetic::mul::lemma_mul_is_commutative(
                                    m.num as int,
                                    e.den as int,
                                );
                            },
                        }
                    } else {
                        match crate::frac::sub_spec(e, m) {
                            None => {},
                            Some(rem) => {
                                pos_mul(e.den as int, m.den as int);
                                lemma_walk_peak_bounds(pk, off, rem);
                            },
                        }
                    }
                },
            }
        },
    }
}

proof fn lemma_walk_onset_bounds(
    on: Option<DoseTimeRange>,
    cu: Option<DoseTimeRange>,
    pk: Option<DoseTimeRange>,
    off: Option<DoseTimeRange>,
    e: Frac,
)
    requires
        on matches Some(p) ==> p.wf(),
        cu matches Some(p) ==> p.wf(),
        pk matches Some(p) ==> p.wf(),
        off matches Some(p) ==> p.wf(),
        e.wf(),
    ensures
        walk_onset_spec(on, cu, pk, off, e) matches Ok(v) ==> v.wf() && rat_le(rat_zero(), v@)
            && rat_le(v@, rat_one()),
{
    match on {
        None => {
            lemma_walk_comeup_bounds(cu, pk, off, e);
        },
        Some(p) => {
            lemma_mid_wf(p);
            match mid_hours_spec(p) {
                Err(_) => {},
                Ok(m) => {
                    if !rat_le(e@, m@) {
                        match crate::frac::sub_spec(e, m) {
                            None => {},
                            Some(rem) => {
                                pos_mul(e.den as int, m.den as int);
                                lemma_walk_comeup_bounds(cu, pk, off, rem);
                            },
                        }
                    }
                },
            }
        },
    }
}

/// Every intensity the evaluator returns lies in `[0, 1]` exactly.
pub proof fn lemma_effect_intensity_bounds(
    roa: RouteOfAdministration,
    amount: Frac,
    units: DoseUnits,
    e: Frac,
)
    requires
        roa_wf(roa),
        e.wf(),
    ensures
        calc_effect_spec(roa, amount, units, e) matches Ok(v) ==> v.wf() && rat_le(
            rat_zero(),
            v@,
        ) && rat_le(v@, rat_one()),
{
    lemma_walk_onset_bounds(
        roa.duration.onset,
        roa.duration.comeup,
        roa.duration.peak,
        roa.duration.offset,
        e,
    );
}

proof fn lemma_walk_offset_congr(off: Option<DoseTimeRange>, e1: Frac, e2: Frac)
    requires
        off matches Some(p) ==> p.wf(),
        e1.wf(),
        e2.wf(),
        rat_eq(e1@, e2@),
    ensures
        walk_offset_spec(off, e1) matches Ok(v1) ==> (walk_offset_spec(off, e2) matches Ok(v2)
            ==> rat_eq(v1@, v2@)),
{
    match off {
        None => {},
        Some(p) => {
            lemma_mid_wf(p);
            match mid_hours_spec(p) {
                Err(_) => {},
                Ok(m) => {
                    lemma_rat_le_congr(e1@, e2@, m@, m@);
                    if m.num != 0 && rat_le(e1@, m@) {
                        match crate::frac::div_spec(e1, m) {
                            None => {},
                            Some(t1) => {
                                match crate::frac::div_spec(e2, m) {
                                    None => {},
                                    Some(t2) => {
                                        pos_mul(e1.den as int, m.num as int);
                                        pos_mul(e2.den as int, m.num as int);
                                        nonneg_mul(e1.num as int, m.den as int);
                                        nonneg_mul(e2.num as int, m.den as int);
                                        lemma_rat_div_congr(e1@, e2@, m@, m@);
                                        lemma_rat_sub_congr(
                                            rat_one(),
                                            rat_one(),
                                            rat_div(e1@, m@),
                                            rat_div(e2@, m@),
                                        );
                                        assert(t1.den - t1.num == rat_sub(
                                            rat_one(),
                                            rat_div(e1@, m@),
                                        ).n);
                                        assert(t2.den - t2.num == rat_sub(
                                            rat_one(),
                                            rat_div(e2@, m@),
                                        ).n);
                                    },
                                }
                            },
                        }
                    }
                },
            }
        },
    }
}

proof fn lemma_walk_peak_congr(
    pk: Option<DoseTimeRange>,
    off: Option<DoseTimeRange>,
    e1: Frac,
    e2: Frac,
)
    requires
        pk matches Some(p) ==> p.wf(),
        off matches Some(p) ==> p.wf(),
        e1.wf(),
        e2.wf(),
        rat_eq(e1@, e2@),
    ensures
        walk_peak_spec(pk, off, e1) matches Ok(v1) ==> (walk_peak_spec(pk, off, e2) matches Ok(v2)
            ==> rat_eq(v1@, v2@)),
{
    match pk {
        None => {
            lemma_walk_offset_congr(off, e1, e2);
        },
        Some(p) => {
            lemma_mid_wf(p);
            match mid_hours_spec(p) {
                Err(_) => {},
                Ok(m) => {
                    lemma_rat_le_congr(e1@, e2@, m@, m@);
                    if !rat_le(e1@, m@) {
                        match crate::frac::sub_spec(e1, m) {
                            None => {},
                            Some(rem1) => {
                                match crate::frac::sub_spec(e2, m) {
                                    None => {},
                                    Some(rem2) => {
                                        pos_mul(e1.den as int, m.den as int);
                                        pos_mul(e2.den as int, m.den as int);
                                        lemma_rat_sub_congr(e1@, e2@, m@, m@);
                                        lemma_walk_offset_congr(off, rem1, rem2);
                                    },
                                }
                            },
                        }
                    }
                },
            }
        },
    }
}

proof fn lemma_walk_comeup_congr(
    cu: Option<DoseTimeRange>,
    pk: Option<DoseTimeRange>,
    off: Option<DoseTimeRange>,
    e1: Frac,
    e2: Frac,
)
    requires
        cu matches Some(p) ==> p.wf(),
        pk matches Some(p) ==> p.wf(),
        off matches Some(p) ==> p.wf(),
        e1.wf(),
        e2.wf(),
        rat_eq(e1@, e2@),
    ensures
        walk_comeup_spec(cu, pk, off, e1) matches Ok(v1) ==> (walk_comeup_spec(cu, pk, off, e2)
            matches Ok(v2) ==> rat_eq(v1@, v2@)),
{
    match cu {
        None => {
            lemma_walk_peak_congr(pk, off, e1, e2);
        },
        Some(p) => {
            lemma_mid_wf(p);
            match mid_hours_spec(p) {
                Err(_) => {},
                Ok(m) => {
                    lemma_rat_le_congr(e1@, e2@, m@, m@);
                    if m.num == 0 {
                        lemma_walk_peak_congr(pk, off, e1, e2);
                    } else if rat_le(e1@, m@) {
                        lemma_rat_div_congr(e1@, e2@, m@, m@);
                    } else {
                        match crate::frac::sub_spec(e1, m) {
                            None => {},
                            Some(rem1) => {
                                match crate::frac::sub_spec(e2, m) {
                                    None => {},
                                    Some(rem2) => {
                                        pos_mul(e1.den as int, m.den as int);
                                        pos_mul(e2.den as int, m.den as int);
                                        lemma_rat_sub_congr(e1@, e2@, m@, m@);
                                        lemma_walk_peak_congr(pk, off, rem1, rem2);
                                    },
                                }
                            },
                        }
                    }
                },
            }
        },
    }
}

/// A zero-length onset phase behaves like an absent one: when both walks
/// complete, they yield the same intensity value.  (The one exception —
/// elapsed time zero together with a zero-length comeup — is excluded,
/// as the two walks then stop in different phases.)
pub proof fn lemma_zero_length_onset_skipped(
    p0: DoseTimeRange,
    cu: Option<DoseTimeRange>,
    pk: Option<DoseTimeRange>,
    off: Option<DoseTimeRange>,
    e: Frac,
)
    requires
        p0.wf(),
        !(p0.units is Invalid),
        p0.start.num == 0,
        p0.end.num == 0,
        cu matches Some(p) ==> p.wf(),
        pk matches Some(p) ==> p.wf(),
        off matches Some(p) ==> p.wf(),
        e.wf(),
        e.num > 0 || (cu matches Some(c) && (c.start.num > 0 || c.end.num > 0)),
    ensures
        walk_onset_spec(Some(p0), cu, pk, off, e) matches Ok(v) ==> (walk_comeup_spec(
            cu,
            pk,
            off,
            e,
        ) matches Ok(w) ==> rat_eq(v@, w@)),
{
    lemma_mid_wf(p0);
    nonneg_mul(p0.start.num as int, p0.end.den as int);
    nonneg_mul(p0.end.num as int, p0.start.den as int);
    match mid_hours_spec(p0) {
        Err(_) => {},
        Ok(m) => {
            assert(m.num == 0);
            if e.num > 0 {
                assert(!rat_le(e@, m@)) by {
                    pos_mul(e.num as int, m.den as int);
                    nonneg_mul(m.num as int, e.den as int);
                };
                match crate::frac::sub_spec(e, m) {
                    None => {},
                    Some(rem) => {
                        pos_mul(e.den as int, m.den as int);
                        assert(rat_eq(rem@, e@)) by {
                            assert(rem@.n == e.num * m.den && rem@.d == e.den * m.den && rem@.n * e@.d
                                == e@.n * rem@.d) by (nonlinear_arith)
                                requires
                                    rem@.n == e.num * m.den - m.num * e.den,
                                    rem@.d == e.den * m.den,
                                    m.num == 0,
                            ;
                        };
                        lemma_walk_comeup_congr(cu, pk, off, rem, e);
                        assert(walk_onset_spec(Some(p0), cu, pk, off, e) == walk_comeup_spec(
                            cu,
                            pk,
                            off,
                            rem,
                        ));
                    },
                }
            } else {
                assert(rat_le(e@, m@)) by {
                    nonneg_mul(e.num as int, m.den as int);
                    nonneg_mul(m.num as int, e.den as int);
                };
                match cu {
                    None => {},
                    Some(c) => {
                        lemma_mid_wf(c);
                        match mid_hours_spec(c) {
                            Err(_) => {},
                            Ok(mc) => {
                                assert(mc.num > 0) by {
                                    assert(c.start.num * c.end.den + c.end.num * c.start.den >= 1)
                                        by (nonlinear_arith)
                                        requires
                                            c.start.num > 0 || c.end.num > 0,
                                            c.start.num >= 0,
                                            c.end.num >= 0,
                                            c.start.den >= 1,
                                            c.end.den >= 1,
                                    ;
                                };
                                assert(rat_le(e@, mc@)) by {
                                    nonneg_mul(e.num as int, mc.den as int);
                                    nonneg_mul(mc.num as int, e.den as int);
                                };
                                match crate::frac::div_spec(e, mc) {
                                    None => {},
                                    Some(t) => {
                                        assert(t.num == 0) by {
                                            nonneg_mul(e.num as int, mc.den as int);
                                        };
                                        assert(walk_onset_spec(Some(p0), cu, pk, off, e)
                                            == Ok::<Frac, UnitError>(Frac { num: 0, den: 1 }));
                                        assert(walk_comeup_spec(cu, pk, off, e) == Ok::<
                                            Frac,
                                            UnitError,
                                        >(t));
                                        nonneg_mul(0, t.den as int);
                                        nonneg_mul(t.num as int, 1);
                                        assert(rat_eq((Frac { num: 0, den: 1 })@, t@));
                                    },
                                }
                            },
                        }
                    },
                }
            }
        },
    }
}

/// Geometry consistency: the cumulative total always equals the
/// x-coordinate of the final estimate vertex.  Both accumulate the phase
/// midpoints in seconds through onset, comeup, peak and offset, so they
/// succeed on exactly the same routes and agree whenever they succeed.
pub proof fn lemma_geometry_consistency(d: Duration)
    ensures
        (cumulative_total_spec(d) is Ok) == (estimate_points_spec(d) is Ok),
        cumulative_total_spec(d) matches Ok(c) ==> (estimate_points_spec(d) matches Ok(pts)
            ==> pts.len() == 5 && pts[4].0 == c),
{
}

} // verus!
