//! Mass and time unit systems.
//!
//! Mass units are mg, µg, g and ml; time units are seconds, minutes and
//! hours.  Conversion between two units of the same kind is an exact
//! linear rescaling; `Ml` is a volume and has no defined conversion to any
//! mass unit.  Unit symbols parse case-insensitively, and unrecognized
//! text maps to `Invalid` rather than erroring: the failure surfaces later,
//! when an operation needs a known unit.
use vstd::prelude::*;

use crate::error::UnitError;
use crate::frac::{scale_den_spec, scale_num_spec, Frac};
use crate::parse::{eq_ignore_ascii, seq_ieq};
use crate::rat::rat_eq;

verus! {

/// A unit of mass (or, for `Ml`, of volume).  `Invalid` is the parse
/// fallback for unrecognized text.
#[derive(Debug, Clone, Copy, PartialEq, Eq, Structural)]
pub enum DoseUnits {
    Mg,
    Ml,
    Ug,
    G,
    Invalid,
}

/// A unit of time.  `Invalid` is the parse fallback for unrecognized
/// text.
#[derive(Debug, Clone, Copy, PartialEq, Eq, Structural)]
pub enum TimeUnits {
    Minutes,
    Hours,
    Seconds,
    Invalid,
}

impl Default for DoseUnits {
    fn default() -> (r: Self)
        ensures
            r == DoseUnits::Invalid,
    {
        DoseUnits::Invalid
    }
}

impl Default for TimeUnits {
    fn default() -> (r: Self)
        ensures
            r == TimeUnits::Invalid,
    {
        TimeUnits::Invalid
    }
}

/// How `DoseUnits` parses: the recognized symbols, ASCII-case-insensitive.
pub open spec fn spec_parse_dose_units(s: Seq<char>) -> DoseUnits {
    if seq_ieq(s, "mg"@) {
        DoseUnits::Mg
    } else if seq_ieq(s, "\u{b5}g"@) {
        DoseUnits::Ug
    } else if seq_ieq(s, "g"@) {
        DoseUnits::G
    } else if seq_ieq(s, "ml"@) {
        DoseUnits::Ml
    } else {
        DoseUnits::Invalid
    }
}

/// How `TimeUnits` parses.
pub open spec fn spec_parse_time_units(s: Seq<char>) -> TimeUnits {
    if seq_ieq(s, "hours"@) {
        TimeUnits::Hours
    } else if seq_ieq(s, "minutes"@) {
        TimeUnits::Minutes
    } else if seq_ieq(s, "seconds"@) {
        TimeUnits::Seconds
    } else {
        TimeUnits::Invalid
    }
}

impl From<String> for DoseUnits {
    fn from(s: String) -> (r: Self)
        ensures
            r == spec_parse_dose_units(s@),
    {
        if eq_ignore_ascii(s.as_str(), "mg") {
            DoseUnits::Mg
        } else if eq_ignore_ascii(s.as_str(), "\u{b5}g") {
            DoseUnits::Ug
        } else if eq_ignore_ascii(s.as_str(), "g") {
            DoseUnits::G
        } else if eq_ignore_ascii(s.as_str(), "ml") {
            DoseUnits::Ml
        } else {
            DoseUnits::Invalid
        }
    }
}

impl vstd::std_specs::convert::FromSpecImpl<String> for DoseUnits {
    open spec fn obeys_from_spec() -> bool {
        true
    }

    open spec fn from_spec(s: String) -> Self {
        spec_parse_dose_units(s@)
    }
}

impl From<String> for TimeUnits {
    fn from(s: String) -> (r: Self)
        ensures
            r == spec_parse_time_units(s@),
    {
        if eq_ignore_ascii(s.as_str(), "hours") {
            TimeUnits::Hours
        } else if eq_ignore_ascii(s.as_str(), "minutes") {
            TimeUnits::Minutes
        } else if eq_ignore_ascii(s.as_str(), "seconds") {
            TimeUnits::Seconds
        } else {
            TimeUnits::Invalid
        }
    }
}

impl vstd::std_specs::convert::FromSpecImpl<String> for TimeUnits {
    open spec fn obeys_from_spec() -> bool {
        true
    }

    open spec fn from_spec(s: String) -> Self {
        spec_parse_time_units(s@)
    }
}

impl DoseUnits {
    /// The unit's display symbol.  `Invalid` has none.
    pub fn symbol(&self) -> (r: &'static str)
        requires
            *self != DoseUnits::Invalid,
        ensures
            r@ == match *self {
                DoseUnits::Mg => "mg"@,
                DoseUnits::Ml => "ml"@,
                DoseUnits::Ug => "\u{b5}g"@,
                DoseUnits::G => "g"@,
                DoseUnits::Invalid => Seq::<char>::empty(),
            },
    {
        match self {
            DoseUnits::Mg => "mg",
            DoseUnits::Ml => "ml",
            DoseUnits::Ug => "\u{b5}g",
            DoseUnits::G => "g",
            DoseUnits::Invalid => "",
        }
    }
}

/// The factor by which a value is multiplied when converting mass from
/// `from` to `to`, where the conversion makes the number larger.
pub open spec fn mass_scale_up(from: DoseUnits, to: DoseUnits) -> Option<u64> {
    match (from, to) {
        (DoseUnits::G, DoseUnits::Mg) => Some(1000u64),
        (DoseUnits::Mg, DoseUnits::Ug) => Some(1000u64),
        (DoseUnits::G, DoseUnits::Ug) => Some(1000000u64),
        _ => None,
    }
}

/// The factor by which a value is divided when converting mass from
/// `from` to `to`, where the conversion makes the number smaller.
pub open spec fn mass_scale_down(from: DoseUnits, to: DoseUnits) -> Option<u64> {
    match (from, to) {
        (DoseUnits::Mg, DoseUnits::G) => Some(1000u64),
        (DoseUnits::Ug, DoseUnits::Mg) => Some(1000u64),
        (DoseUnits::Ug, DoseUnits::G) => Some(1000000u64),
        _ => None,
    }
}

/// Whether mass converts from `a` to `b`: identity, or one of the six
/// directed mg/µg/g pairs.  `Ml` converts only to itself.
pub open spec fn mass_convertible(a: DoseUnits, b: DoseUnits) -> bool {
    a == b || mass_scale_up(a, b) is Some || mass_scale_down(a, b) is Some
}

/// Mirror of `convert_mass`: identity is a no-op; a defined pair rescales
/// exactly or reports `Overflow`; anything else is unsupported.
pub open spec fn convert_mass_spec(x: Frac, from: DoseUnits, to: DoseUnits) -> Result<
    Frac,
    UnitError,
> {
    if from == to {
        Ok(x)
    } else {
        match mass_scale_up(from, to) {
            Some(k) => match scale_num_spec(x, k) {
                Some(y) => Ok(y),
                None => Err(UnitError::Overflow),
            },
            None => match mass_scale_down(from, to) {
                Some(k) => match scale_den_spec(x, k) {
                    Some(y) => Ok(y),
                    None => Err(UnitError::Overflow),
                },
                None => Err(UnitError::UnsupportedUnitConversion),
            },
        }
    }
}

/// The factor by which a value is multiplied when converting time from
/// `from` to `to`.
pub open spec fn time_scale_up(from: TimeUnits, to: TimeUnits) -> Option<u64> {
    match (from, to) {
        (TimeUnits::Hours, TimeUnits::Minutes) => Some(60u64),
        (TimeUnits::Minutes, TimeUnits::Seconds) => Some(60u64),
        (TimeUnits::Hours, TimeUnits::Seconds) => Some(3600u64),
        _ => None,
    }
}

/// The factor by which a value is divided when converting time from
/// `from` to `to`.
pub open spec fn time_scale_down(from: TimeUnits, to: TimeUnits) -> Option<u64> {
    match (from, to) {
        (TimeUnits::Minutes, TimeUnits::Hours) => Some(60u64),
        (TimeUnits::Seconds, TimeUnits::Minutes) => Some(60u64),
        (TimeUnits::Seconds, TimeUnits::Hours) => Some(3600u64),
        _ => None,
    }
}

/// Whether time converts from `a` to `b`.
pub open spec fn time_convertible(a: TimeUnits, b: TimeUnits) -> bool {
    a == b || time_scale_up(a, b) is Some || time_scale_down(a, b) is Some
}

/// Mirror of `convert_time`.
pub open spec fn convert_time_spec(x: Frac, from: TimeUnits, to: TimeUnits) -> Result<
    Frac,
    UnitError,
> {
    if from == to {
        Ok(x)
    } else {
        match time_scale_up(from, to) {
            Some(k) => match scale_num_spec(x, k) {
                Some(y) => Ok(y),
                None => Err(UnitError::Overflow),
            },
            None => match time_scale_down(from, to) {
                Some(k) => match scale_den_spec(x, k) {
                    Some(y) => Ok(y),
                    None => Err(UnitError::Overflow),
                },
                None => Err(UnitError::UnsupportedUnitConversion),
            },
        }
    }
}

/// Multiply by `k`, mapping a failure to fit onto `Overflow`.
fn scale_up_checked(x: &Frac, k: u64) -> (r: Result<Frac, UnitError>)
    requires
        x.wf(),
        k >= 1,
    ensures
        r == match scale_num_spec(*x, k) {
            Some(y) => Ok::<Frac, UnitError>(y),
            None => Err::<Frac, UnitError>(UnitError::Overflow),
        },
        r matches Ok(y) ==> y.wf(),
{
    match x.checked_scale_num(k) {
        Some(y) => Ok(y),
        None => Err(UnitError::Overflow),
    }
}

/// Divide by `k`, mapping a failure to fit onto `Overflow`.
fn scale_down_checked(x: &Frac, k: u64) -> (r: Result<Frac, UnitError>)
    requires
        x.wf(),
        k >= 1,
    ensures
        r == match scale_den_spec(*x, k) {
            Some(y) => Ok::<Frac, UnitError>(y),
            None => Err::<Frac, UnitError>(UnitError::Overflow),
        },
        r matches Ok(y) ==> y.wf(),
{
    match x.checked_scale_den(k) {
        Some(y) => Ok(y),
        None => Err(UnitError::Overflow),
    }
}

/// Convert a mass amount between units.  Identity conversion returns the
/// input unchanged; a defined mg/µg/g pair rescales the exact value;
/// anything else (volume to mass, or an `Invalid` endpoint) fails with
/// `UnsupportedUnitConversion`.
pub fn convert_mass(amount: &Frac, from: DoseUnits, to: DoseUnits) -> (r: Result<Frac, UnitError>)
    requires
        amount.wf(),
    ensures
        r == convert_mass_spec(*amount, from, to),
        r matches Ok(y) ==> y.wf(),
{
    if from == to {
        return Ok(*amount);
    }
    match (from, to) {
        (DoseUnits::G, DoseUnits::Mg) => scale_up_checked(amount, 1000),
        (DoseUnits::Mg, DoseUnits::Ug) => scale_up_checked(amount, 1000),
        (DoseUnits::G, DoseUnits::Ug) => scale_up_checked(amount, 1000000),
        (DoseUnits::Mg, DoseUnits::G) => scale_down_checked(amount, 1000),
        (DoseUnits::Ug, DoseUnits::Mg) => scale_down_checked(amount, 1000),
        (DoseUnits::Ug, DoseUnits::G) => scale_down_checked(amount, 1000000),
        _ => Err(UnitError::UnsupportedUnitConversion),
    }
}

/// Convert a time value between units, with the same contract shape as
/// `convert_mass`.
pub fn convert_time(value: &Frac, from: TimeUnits, to: TimeUnits) -> (r: Result<Frac, UnitError>)
    requires
        value.wf(),
    ensures
        r == convert_time_spec(*value, from, to),
        r matches Ok(y) ==> y.wf(),
{
    if from == to {
        return Ok(*value);
    }
    match (from, to) {
        (TimeUnits::Hours, TimeUnits::Minutes) => scale_up_checked(value, 60),
        (TimeUnits::Minutes, TimeUnits::Seconds) => scale_up_checked(value, 60),
        (TimeUnits::Hours, TimeUnits::Seconds) => scale_up_checked(value, 3600),
        (TimeUnits::Minutes, TimeUnits::Hours) => scale_down_checked(value, 60),
        (TimeUnits::Seconds, TimeUnits::Minutes) => scale_down_checked(value, 60),
        (TimeUnits::Seconds, TimeUnits::Hours) => scale_down_checked(value, 3600),
        _ => Err(UnitError::UnsupportedUnitConversion),
    }
}

/// Scaling the value up by `k` and then down by `k` (or the other way
/// round) reproduces the original value, whenever both steps fit.
proof fn lemma_scale_round_trip_frac(x: Frac, k: u64)
    requires
        x.wf(),
        k >= 1,
    ensures
        scale_num_spec(x, k) matches Some(y) ==> (scale_den_spec(y, k) matches Some(z) ==> rat_eq(
            z@,
            x@,
        )),
        scale_den_spec(x, k) matches Some(y) ==> (scale_num_spec(y, k) matches Some(z) ==> rat_eq(
            z@,
            x@,
        )),
{
    crate::rat::lemma_rat_scale_round_trip(x@, k as int);
    match scale_num_spec(x, k) {
        Some(y) => {
            assert(y@ == crate::rat::rat_scale_num(x@, k as int));
            match scale_den_spec(y, k) {
                Some(z) => {
                    assert(z@ == crate::rat::rat_scale_den(
                        crate::rat::rat_scale_num(x@, k as int),
                        k as int,
                    ));
                },
                None => {},
            }
        },
        None => {},
    }
    match scale_den_spec(x, k) {
        Some(y) => {
            assert(y@ == crate::rat::rat_scale_den(x@, k as int));
            match scale_num_spec(y, k) {
                Some(z) => {
                    assert(z@ == crate::rat::rat_scale_num(
                        crate::rat::rat_scale_den(x@, k as int),
                        k as int,
                    ));
                },
                None => {},
            }
        },
        None => {},
    }
}

/// Round-trip law for mass: converting between a defined pair of units and
/// back reproduces the original value exactly.
pub proof fn lemma_convert_mass_round_trip(x: Frac, a: DoseUnits, b: DoseUnits)
    requires
        x.wf(),
        mass_convertible(a, b),
    ensures
        mass_convertible(b, a),
        convert_mass_spec(x, a, b) matches Ok(y) ==> (convert_mass_spec(y, b, a) matches Ok(z)
            ==> rat_eq(z@, x@)),
{
    lemma_scale_round_trip_frac(x, 1000);
    lemma_scale_round_trip_frac(x, 1000000);
    crate::rat::lemma_rat_eq_refl(x@);
}

/// Round-trip law for time: converting between a defined pair of units and
/// back reproduces the original value exactly.
pub proof fn lemma_convert_time_round_trip(x: Frac, a: TimeUnits, b: TimeUnits)
    requires
        x.wf(),
        time_convertible(a, b),
    ensures
        time_convertible(b, a),
        convert_time_spec(x, a, b) matches Ok(y) ==> (convert_time_spec(y, b, a) matches Ok(z)
            ==> rat_eq(z@, x@)),
{
    lemma_scale_round_trip_frac(x, 60);
    lemma_scale_round_trip_frac(x, 3600);
    crate::rat::lemma_rat_eq_refl(x@);
}

} // verus!
