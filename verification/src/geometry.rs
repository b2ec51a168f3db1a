//! Cumulative curve geometry for plotting.
//!
//! These derived views turn a route's phases into vertex lists for an
//! intensity-vs-time chart, with every x-coordinate in seconds: the five
//! estimate points trace onset, comeup, peak and offset through their
//! cumulative midpoints, and the cumulative total is the same
//! accumulation in one number, so it always equals the final vertex's
//! x-coordinate; the two distribution polygons bound the comeup and
//! offset regions through cumulative phase starts and ends.  An absent
//! phase stands in as a zero-length range.
use vstd::prelude::*;

use crate::error::UnitError;
use crate::frac::{add_spec, Frac};
use crate::substance::RouteOfAdministration;
use crate::timerange::{midpoint_spec, rescale_spec, Duration, DoseTimeRange};
use crate::units::TimeUnits;

verus! {

/// The zero-length stand-in for an absent phase.
pub open spec fn zero_range() -> DoseTimeRange {
    DoseTimeRange {
        duration: Frac { num: 0, den: 1 },
        start: Frac { num: 0, den: 1 },
        end: Frac { num: 0, den: 1 },
        midpoint: Frac { num: 0, den: 1 },
        units: TimeUnits::Hours,
    }
}

/// The phase, or the zero-length stand-in, expressed in seconds.
pub open spec fn phase_seconds_spec(p: Option<DoseTimeRange>) -> Result<DoseTimeRange, UnitError> {
    match p {
        None => rescale_spec(zero_range(), TimeUnits::Seconds),
        Some(q) => rescale_spec(q, TimeUnits::Seconds),
    }
}

/// Checked addition with overflow reported as a unit error.
pub open spec fn add_secs(a: Frac, b: Frac) -> Result<Frac, UnitError> {
    match add_spec(a, b) {
        Some(c) => Ok(c),
        None => Err(UnitError::Overflow),
    }
}

/// The phase's midpoint in seconds, or an error.
pub open spec fn phase_mid_seconds_spec(p: Option<DoseTimeRange>) -> Result<Frac, UnitError> {
    match phase_seconds_spec(p) {
        Err(e) => Err(e),
        Ok(q) => match midpoint_spec(q.start, q.end) {
            Some(m) => Ok(m),
            None => Err(UnitError::Overflow),
        },
    }
}

/// Mirror of `cumulative_total`: the phase midpoints accumulated in
/// seconds through onset, comeup, peak and offset -- the same chain that
/// yields the estimate points' x-coordinates, so the total always equals
/// the final vertex.
pub open spec fn cumulative_total_spec(d: Duration) -> Result<Frac, UnitError> {
    match phase_mid_seconds_spec(d.onset) {
        Err(e) => Err(e),
        Ok(onset) => match phase_mid_seconds_spec(d.comeup) {
            Err(e) => Err(e),
            Ok(cm) => match add_secs(cm, onset) {
                Err(e) => Err(e),
                Ok(comeup) => match phase_mid_seconds_spec(d.peak) {
                    Err(e) => Err(e),
                    Ok(pm) => match add_secs(pm, comeup) {
                        Err(e) => Err(e),
                        Ok(peak) => match phase_mid_seconds_spec(d.offset) {
                            Err(e) => Err(e),
                            Ok(om) => add_secs(om, peak),
                        },
                    },
                },
            },
        },
    }
}

/// Mirror of `estimate_points`: five vertices tracing the curve through
/// the cumulative phase midpoints.
pub open spec fn estimate_points_spec(d: Duration) -> Result<Seq<(Frac, Frac)>, UnitError> {
    match phase_mid_seconds_spec(d.onset) {
        Err(e) => Err(e),
        Ok(onset) => match phase_mid_seconds_spec(d.comeup) {
            Err(e) => Err(e),
            Ok(cm) => match add_secs(cm, onset) {
                Err(e) => Err(e),
                Ok(comeup) => match phase_mid_seconds_spec(d.peak) {
                    Err(e) => Err(e),
                    Ok(pm) => match add_secs(pm, comeup) {
                        Err(e) => Err(e),
                        Ok(peak) => match phase_mid_seconds_spec(d.offset) {
                            Err(e) => Err(e),
                            Ok(om) => match add_secs(om, peak) {
                                Err(e) => Err(e),
                                Ok(offset) => Ok(
                                    seq![
                                        (Frac { num: 0, den: 1 }, Frac { num: 0, den: 1 }),
                                        (onset, Frac { num: 0, den: 1 }),
                                        (comeup, Frac { num: 1, den: 1 }),
                                        (peak, Frac { num: 1, den: 1 }),
                                        (offset, Frac { num: 0, den: 1 }),
                                    ],
                                ),
                            },
                        },
                    },
                },
            },
        },
    }
}

/// Mirror of `comeup_distribution`: the closed polygon bounding the
/// comeup region, from cumulative starts and ends of onset and comeup.
pub open spec fn comeup_distribution_spec(d: Duration) -> Result<Seq<(Frac, Frac)>, UnitError> {
    match phase_seconds_spec(d.onset) {
        Err(e) => Err(e),
        Ok(on) => match phase_seconds_spec(d.comeup) {
            Err(e) => Err(e),
            Ok(cu) => match add_secs(cu.start, on.start) {
                Err(e) => Err(e),
                Ok(comeup_start) => match add_secs(cu.end, on.end) {
                    Err(e) => Err(e),
                    Ok(comeup_end) => Ok(
                        seq![
                            (on.start, Frac { num: 0, den: 1 }),
                            (on.end, Frac { num: 0, den: 1 }),
                            (comeup_end, Frac { num: 1, den: 1 }),
                            (comeup_start, Frac { num: 1, den: 1 }),
                            (on.start, Frac { num: 0, den: 1 }),
                        ],
                    ),
                },
            },
        },
    }
}

/// Mirror of `offset_distribution`: the closed polygon bounding the
/// offset region, from cumulative starts and ends through peak and
/// offset.
pub open spec fn offset_distribution_spec(d: Duration) -> Result<Seq<(Frac, Frac)>, UnitError> {
    match phase_seconds_spec(d.onset) {
        Err(e) => Err(e),
        Ok(on) => match phase_seconds_spec(d.comeup) {
            Err(e) => Err(e),
            Ok(cu) => match add_secs(cu.start, on.start) {
                Err(e) => Err(e),
                Ok(comeup_start) => match add_secs(cu.end, on.end) {
                    Err(e) => Err(e),
                    Ok(comeup_end) => match phase_seconds_spec(d.peak) {
                        Err(e) => Err(e),
                        Ok(pk) => match add_secs(pk.start, comeup_start) {
                            Err(e) => Err(e),
                            Ok(peak_start) => match add_secs(pk.end, comeup_end) {
                                Err(e) => Err(e),
                                Ok(peak_end) => match phase_seconds_spec(d.offset) {
                                    Err(e) => Err(e),
                                    Ok(off) => match add_secs(off.start, peak_start) {
                                        Err(e) => Err(e),
                                        Ok(offset_start) => match add_secs(off.end, peak_end) {
                                            Err(e) => Err(e),
                                            Ok(offset_end) => Ok(
                                                seq![
                                                    (peak_start, Frac { num: 1, den: 1 }),
                                                    (peak_end, Frac { num: 1, den: 1 }),
                                                    (offset_end, Frac { num: 0, den: 1 }),
                                                    (offset_start, Frac { num: 0, den: 1 }),
                                                    (peak_start, Frac { num: 1, den: 1 }),
                                                ],
                                            ),
                                        },
                                    },
                                },
                            },
                        },
                    },
                },
            },
        },
    }
}

/// The phase, or the zero-length stand-in, expressed in seconds.
fn phase_secs(p: &Option<DoseTimeRange>) -> (r: Result<DoseTimeRange, UnitError>)
    requires
        p matches Some(q) ==> q.wf(),
    ensures
        r == phase_seconds_spec(*p),
        r matches Ok(t) ==> t.wf(),
{
    match p {
        Some(q) => q.as_seconds(),
        None => {
            let z = DoseTimeRange::zero();
            z.as_seconds()
        },
    }
}

/// Checked addition of two cumulative x-coordinates.
fn add_x(a: &Frac, b: &Frac) -> (r: Result<Frac, UnitError>)
    requires
        a.wf(),
        b.wf(),
    ensures
        r == add_secs(*a, *b),
        r matches Ok(c) ==> c.wf(),
{
    match a.checked_add(b) {
        Some(c) => Ok(c),
        None => Err(UnitError::Overflow),
    }
}

/// The phase's midpoint in seconds.
fn phase_mid_secs(p: &Option<DoseTimeRange>) -> (r: Result<Frac, UnitError>)
    requires
        p matches Some(q) ==> q.wf(),
    ensures
        r == phase_mid_seconds_spec(*p),
        r matches Ok(m) ==> m.wf(),
{
    let q = match phase_secs(p) {
        Ok(q) => q,
        Err(e) => {
            return Err(e);
        },
    };
    match q.midpoint() {
        Some(m) => Ok(m),
        None => Err(UnitError::Overflow),
    }
}

impl RouteOfAdministration {
    /// The end of the modelled curve: the phase midpoints accumulated in
    /// seconds through onset, comeup, peak and offset.  This equals the
    /// x-coordinate of the final vertex of `estimate_points`.
    pub fn cumulative_total(&self) -> (r: Result<Frac, UnitError>)
        requires
            crate::timerange::duration_wf(self.duration),
        ensures
            r == cumulative_total_spec(self.duration),
            r matches Ok(v) ==> v.wf(),
    {
        let onset = match phase_mid_secs(&self.duration.onset) {
            Ok(v) => v,
            Err(e) => {
                return Err(e);
            },
        };
        let cm = match phase_mid_secs(&self.duration.comeup) {
            Ok(v) => v,
            Err(e) => {
                return Err(e);
            },
        };
        let comeup = match add_x(&cm, &onset) {
            Ok(v) => v,
            Err(e) => {
                return Err(e);
            },
        };
        let pm = match phase_mid_secs(&self.duration.peak) {
            Ok(v) => v,
            Err(e) => {
                return Err(e);
            },
        };
        let peak = match add_x(&pm, &comeup) {
            Ok(v) => v,
            Err(e) => {
                return Err(e);
            },
        };
        let om = match phase_mid_secs(&self.duration.offset) {
            Ok(v) => v,
            Err(e) => {
                return Err(e);
            },
        };
        add_x(&om, &peak)
    }

    /// Five `(seconds, intensity)` vertices tracing the curve through the
    /// cumulative phase midpoints.
    pub fn estimate_points(&self) -> (r: Result<Vec<(Frac, Frac)>, UnitError>)
        requires
            crate::timerange::duration_wf(self.duration),
        ensures
            match estimate_points_spec(self.duration) {
                Ok(s) => r matches Ok(v) && v@ == s,
                Err(e) => r == Err::<Vec<(Frac, Frac)>, UnitError>(e),
            },
    {
        let onset = match phase_mid_secs(&self.duration.onset) {
            Ok(v) => v,
            Err(e) => {
                return Err(e);
            },
        };
        let cm = match phase_mid_secs(&self.duration.comeup) {
            Ok(v) => v,
            Err(e) => {
                return Err(e);
            },
        };
        let comeup = match add_x(&cm, &onset) {
            Ok(v) => v,
            Err(e) => {
                return Err(e);
            },
        };
        let pm = match phase_mid_secs(&self.duration.peak) {
            Ok(v) => v,
            Err(e) => {
                return Err(e);
            },
        };
        let peak = match add_x(&pm, &comeup) {
            Ok(v) => v,
            Err(e) => {
                return Err(e);
            },
        };
        let om = match phase_mid_secs(&self.duration.offset) {
            Ok(v) => v,
            Err(e) => {
                return Err(e);
            },
        };
        let offset = match add_x(&om, &peak) {
            Ok(v) => v,
            Err(e) => {
                return Err(e);
            },
        };
        let mut points: Vec<(Frac, Frac)> = Vec::new();
        points.push((Frac { num: 0, den: 1 }, Frac { num: 0, den: 1 }));
        points.push((onset, Frac { num: 0, den: 1 }));
        points.push((comeup, Frac { num: 1, den: 1 }));
        points.push((peak, Frac { num: 1, den: 1 }));
        points.push((offset, Frac { num: 0, den: 1 }));
        proof {
            assert(points@ =~= estimate_points_spec(self.duration).unwrap());
        }
        Ok(points)
    }

    /// The closed polygon bounding the comeup region.
    pub fn comeup_distribution(&self) -> (r: Result<Vec<(Frac, Frac)>, UnitError>)
        requires
            crate::timerange::duration_wf(self.duration),
        ensures
            match comeup_distribution_spec(self.duration) {
                Ok(s) => r matches Ok(v) && v@ == s,
                Err(e) => r == Err::<Vec<(Frac, Frac)>, UnitError>(e),
            },
    {
        let on = match phase_secs(&self.duration.onset) {
            Ok(v) => v,
            Err(e) => {
                return Err(e);
            },
        };
        let cu = match phase_secs(&self.duration.comeup) {
            Ok(v) => v,
            Err(e) => {
                return Err(e);
            },
        };
        let comeup_start = match add_x(&cu.start, &on.start) {
            Ok(v) => v,
            Err(e) => {
                return Err(e);
            },
        };
        let comeup_end = match add_x(&cu.end, &on.end) {
            Ok(v) => v,
            Err(e) => {
                return Err(e);
            },
        };
        let mut points: Vec<(Frac, Frac)> = Vec::new();
        points.push((on.start, Frac { num: 0, den: 1 }));
        points.push((on.end, Frac { num: 0, den: 1 }));
        points.push((comeup_end, Frac { num: 1, den: 1 }));
        points.push((comeup_start, Frac { num: 1, den: 1 }));
        points.push((on.start, Frac { num: 0, den: 1 }));
        proof {
            assert(points@ =~= comeup_distribution_spec(self.duration).unwrap());
        }
        Ok(points)
    }

    /// The closed polygon bounding the offset region.
    pub fn offset_distribution(&self) -> (r: Result<Vec<(Frac, Frac)>, UnitError>)
        requires
            crate::timerange::duration_wf(self.duration),
        ensures
            match offset_distribution_spec(self.duration) {
                Ok(s) => r matches Ok(v) && v@ == s,
                Err(e) => r == Err::<Vec<(Frac, Frac)>, UnitError>(e),
            },
    {
        let on = match phase_secs(&self.duration.onset) {
            Ok(v) => v,
            Err(e) => {
                return Err(e);
            },
        };
        let cu = match phase_secs(&self.duration.comeup) {
            Ok(v) => v,
            Err(e) => {
                return Err(e);
            },
        };
        let comeup_start = match add_x(&cu.start, &on.start) {
            Ok(v) => v,
            Err(e) => {
                return Err(e);
            },
        };
        let comeup_end = match add_x(&cu.end, &on.end) {
            Ok(v) => v,
            Err(e) => {
                return Err(e);
            },
        };
        let pk = match phase_secs(&self.duration.peak) {
            Ok(v) => v,
            Err(e) => {
                return Err(e);
            },
        };
        let peak_start = match add_x(&pk.start, &comeup_start) {
            Ok(v) => v,
            Err(e) => {
                return Err(e);
            },
        };
        let peak_end = match add_x(&pk.end, &comeup_end) {
            Ok(v) => v,
            Err(e) => {
                return Err(e);
            },
        };
        let off = match phase_secs(&self.duration.offset) {
            Ok(v) => v,
            Err(e) => {
                return Err(e);
            },
        };
        let offset_start = match add_x(&off.start, &peak_start) {
            Ok(v) => v,
            Err(e) => {
                return Err(e);
            },
        };
        let offset_end = match add_x(&off.end, &peak_end) {
            Ok(v) => v,
            Err(e) => {
                return Err(e);
            },
        };
        let mut points: Vec<(Frac, Frac)> = Vec::new();
        points.push((peak_start, Frac { num: 1, den: 1 }));
        points.push((peak_end, Frac { num: 1, den: 1 }));
        points.push((offset_end, Frac { num: 0, den: 1 }));
        points.push((offset_start, Frac { num: 0, den: 1 }));
        points.push((peak_start, Frac { num: 1, den: 1 }));
        proof {
            assert(points@ =~= offset_distribution_spec(self.duration).unwrap());
        }
        Ok(points)
    }
}

} // verus!
