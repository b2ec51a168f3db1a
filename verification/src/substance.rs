//! Substances, routes and ingestion events.
//!
//! A `Substance` owns its documented routes of administration and three
//! interaction-name lists.  An `Ingestion` binds an amount, a mass unit, a
//! timestamp and a chosen route to one substance, which it references
//! read-only.  Classification normalizes the ingested amount into the
//! route's own unit and then applies the fixed tie-break order of
//! `classify_amount`.  Route lookup is last-match-wins.
use vstd::prelude::*;

use crate::dose::{classify_amount, dose_metadata_wf, DosageType, DoseMetadata};
use crate::error::UnitError;
use crate::frac::{scale_den_spec, scale_num_spec, Frac};
use crate::roa::ROAs;
use crate::timerange::{duration_wf, Duration};
use crate::units::{
    convert_mass,
    convert_mass_spec,
    mass_scale_down,
    mass_scale_up,
    DoseUnits,
};

verus! {

/// An interaction whose effect is uncertain.
#[derive(Debug, Clone)]
pub struct UncertainInteraction {
    pub name: String,
}

/// An interaction documented as unsafe.
#[derive(Debug, Clone)]
pub struct UnsafeInteraction {
    pub name: String,
}

/// An interaction documented as dangerous.
#[derive(Debug, Clone)]
pub struct DangerousInteraction {
    pub name: String,
}

/// One route of administration: dose thresholds and bands, plus the
/// timing phases.
#[derive(Debug, Clone, Copy)]
pub struct RouteOfAdministration {
    pub ty: ROAs,
    pub dose_metadata: DoseMetadata,
    pub duration: Duration,
}

/// All numeric data of the route is well-formed.
pub open spec fn roa_wf(r: RouteOfAdministration) -> bool {
    dose_metadata_wf(r.dose_metadata) && duration_wf(r.duration)
}

/// Mirror of route classification: the amount is first converted into the
/// route's own unit, then classified; a failed conversion surfaces as an
/// error rather than a silently wrong tier.
pub open spec fn dosage_type_spec(m: DoseMetadata, amount: Frac, units: DoseUnits) -> Result<
    DosageType,
    UnitError,
> {
    match convert_mass_spec(amount, units, m.units) {
        Ok(a) => Ok(classify_amount(m, a@)),
        Err(e) => Err(e),
    }
}

/// A named substance with its routes and interaction lists.
#[derive(Debug)]
pub struct Substance {
    pub name: String,
    pub cross_tolerances: Vec<String>,
    pub routes_of_administration: Vec<RouteOfAdministration>,
    pub uncertain_interactions: Vec<UncertainInteraction>,
    pub unsafe_interactions: Vec<UnsafeInteraction>,
    pub dangerous_interactions: Vec<DangerousInteraction>,
}

/// All routes carry well-formed numeric data.
pub open spec fn substance_wf(s: Substance) -> bool {
    forall|i: int|
        0 <= i < s.routes_of_administration@.len() ==> roa_wf(#[trigger] s.routes_of_administration@[i])
}

/// Route lookup: the last route with the given kind wins.
pub open spec fn find_route(routes: Seq<RouteOfAdministration>, ty: ROAs) -> Option<
    RouteOfAdministration,
>
    decreases routes.len(),
{
    if routes.len() == 0 {
        None
    } else if routes.last().ty == ty {
        Some(routes.last())
    } else {
        find_route(routes.drop_last(), ty)
    }
}

/// A found route is one of the sequence's elements.
pub proof fn lemma_find_route_element(routes: Seq<RouteOfAdministration>, ty: ROAs)
    ensures
        find_route(routes, ty) matches Some(r) ==> exists|i: int|
            0 <= i < routes.len() && routes[i] == r,
    decreases routes.len(),
{
    if routes.len() > 0 {
        if routes.last().ty == ty {
            assert(routes[routes.len() - 1] == routes.last());
        } else {
            lemma_find_route_element(routes.drop_last(), ty);
            match find_route(routes.drop_last(), ty) {
                Some(r) => {
                    let i = choose|i: int|
                        0 <= i < routes.drop_last().len() && routes.drop_last()[i] == r;
                    assert(routes[i] == r);
                },
                None => {},
            }
        }
    }
}

/// An ingestion event: an amount in some unit, taken at some time by some
/// route, bound to a substance by shared read-only reference.  The
/// timestamp is seconds since the Unix epoch.
#[derive(Debug, Clone, Copy)]
pub struct Ingestion<'a> {
    pub units: DoseUnits,
    pub amount: Frac,
    pub timestamp: i64,
    pub route_of_administration: ROAs,
    pub substance: &'a Substance,
}

/// Mirror of the in-place mass normalisation: a defined pair rescales the
/// amount and adopts the new unit; identity and undefined pairs leave the
/// event untouched.
pub open spec fn normalise_mass_spec(amount: Frac, from: DoseUnits, to: DoseUnits) -> Result<
    (Frac, DoseUnits),
    UnitError,
> {
    match mass_scale_up(from, to) {
        Some(k) => match scale_num_spec(amount, k) {
            Some(y) => Ok((y, to)),
            None => Err(UnitError::Overflow),
        },
        None => match mass_scale_down(from, to) {
            Some(k) => match scale_den_spec(amount, k) {
                Some(y) => Ok((y, to)),
                None => Err(UnitError::Overflow),
            },
            None => Ok((amount, from)),
        },
    }
}

impl Substance {
    /// Create an ingestion event of this substance.
    pub fn new_ingestion<'a>(
        &'a self,
        amount: Frac,
        units: DoseUnits,
        timestamp: i64,
        route_of_administration: ROAs,
    ) -> (r: Ingestion<'a>)
        ensures
            r == (Ingestion {
                units,
                amount,
                timestamp,
                route_of_administration,
                substance: self,
            }),
    {
        Ingestion::new(amount, units, timestamp, route_of_administration, self)
    }

    /// Classify an ingestion against this substance's matching route;
    /// absent when the substance does not document the route.
    pub fn dosage_type(&self, dosage: &Ingestion) -> (r: Option<Result<DosageType, UnitError>>)
        requires
            substance_wf(*self),
            dosage.amount.wf(),
        ensures
            r == match find_route(
                self.routes_of_administration@,
                dosage.route_of_administration,
            ) {
                None => None::<Result<DosageType, UnitError>>,
                Some(roa) => Some(
                    dosage_type_spec(roa.dose_metadata, dosage.amount, dosage.units),
                ),
            },
    {
        proof {
            lemma_find_route_element(
                self.routes_of_administration@,
                dosage.route_of_administration,
            );
        }
        match self.route_of_administration(dosage.route_of_administration) {
            None => None,
            Some(roa) => Some(roa.dosage_type(dosage)),
        }
    }

    /// The substance's route of the given kind, last match winning.
    pub fn route_of_administration(&self, roa: ROAs) -> (r: Option<RouteOfAdministration>)
        ensures
            r == find_route(self.routes_of_administration@, roa),
    {
        let ghost full = self.routes_of_administration@;
        let mut i: usize = self.routes_of_administration.len();
        proof {
            assert(full.take(i as int) =~= full);
        }
        while i > 0
            invariant
                i <= full.len(),
                full == self.routes_of_administration@,
                find_route(full, roa) == find_route(full.take(i as int), roa),
            decreases i,
        {
            i = i - 1;
            let candidate = self.routes_of_administration[i];
            proof {
                assert(full.take(i + 1).last() == full[i as int]);
                assert(full.take(i + 1).drop_last() =~= full.take(i as int));
            }
            if candidate.ty == roa {
                return Some(candidate);
            }
        }
        None
    }
}

impl RouteOfAdministration {
    /// Classify an ingested amount against this route's thresholds and
    /// bands, normalizing it into the route's unit first.
    pub fn dosage_type(&self, dosage: &Ingestion) -> (r: Result<DosageType, UnitError>)
        requires
            dose_metadata_wf(self.dose_metadata),
            dosage.amount.wf(),
        ensures
            r == dosage_type_spec(self.dose_metadata, dosage.amount, dosage.units),
    {
        let a = match convert_mass(&dosage.amount, dosage.units, self.dose_metadata.units) {
            Ok(a) => a,
            Err(e) => {
                return Err(e);
            },
        };
        if let Some(heavy) = &self.dose_metadata.heavy {
            if heavy.le(&a) {
                return Ok(DosageType::Heavy);
            }
        }
        if let Some(threshold) = &self.dose_metadata.threshold {
            if a.value_eq(threshold) {
                return Ok(DosageType::Threshold);
            }
        }
        if let Some(light) = &self.dose_metadata.light {
            if light.contains(&a) {
                return Ok(DosageType::Light);
            }
        }
        if let Some(common) = &self.dose_metadata.common {
            if common.contains(&a) {
                return Ok(DosageType::Common);
            }
        }
        if let Some(strong) = &self.dose_metadata.strong {
            if strong.contains(&a) {
                return Ok(DosageType::Strong);
            }
        }
        Ok(DosageType::BelowThreshold)
    }
}

impl<'a> Ingestion<'a> {
    pub fn new(
        amount: Frac,
        units: DoseUnits,
        timestamp: i64,
        route_of_administration: ROAs,
        substance: &'a Substance,
    ) -> (r: Self)
        ensures
            r == (Ingestion { units, amount, timestamp, route_of_administration, substance }),
    {
        Ingestion { units, amount, timestamp, route_of_administration, substance }
    }

    /// The substance's route this event was taken by.  The caller must
    /// know the route is documented; `Substance::dosage_type` is the
    /// total alternative.
    pub fn roa(&self) -> (r: RouteOfAdministration)
        requires
            find_route(self.substance.routes_of_administration@, self.route_of_administration)
                is Some,
        ensures
            Some(r) == find_route(
                self.substance.routes_of_administration@,
                self.route_of_administration,
            ),
    {
        match self.substance.route_of_administration(self.route_of_administration) {
            Some(r) => r,
            None => vstd::pervasive::unreached(),
        }
    }

    /// Classify this event against its substance.
    pub fn dosage_type(&self) -> (r: Option<Result<DosageType, UnitError>>)
        requires
            substance_wf(*self.substance),
            self.amount.wf(),
        ensures
            r == match find_route(
                self.substance.routes_of_administration@,
                self.route_of_administration,
            ) {
                None => None::<Result<DosageType, UnitError>>,
                Some(roa) => Some(
                    dosage_type_spec(roa.dose_metadata, self.amount, self.units),
                ),
            },
    {
        self.substance.dosage_type(self)
    }

    pub fn set_amount(&mut self, amount: Frac)
        ensures
            *final(self) == (Ingestion { amount, ..*old(self) }),
    {
        self.amount = amount;
    }

    pub fn set_units(&mut self, units: DoseUnits)
        ensures
            *final(self) == (Ingestion { units, ..*old(self) }),
    {
        self.units = units;
    }

    /// Normalise the event's amount into the given unit, in place.  A
    /// pair with no defined conversion leaves the event untouched.
    pub fn normalise_to_units(&mut self, units: DoseUnits) -> (r: Result<(), UnitError>)
        requires
            old(self).amount.wf(),
        ensures
            match normalise_mass_spec(old(self).amount, old(self).units, units) {
                Ok((a, u)) => r == Ok::<(), UnitError>(()) && *final(self) == (Ingestion {
                    amount: a,
                    units: u,
                    ..*old(self)
                }),
                Err(e) => r == Err::<(), UnitError>(e) && *final(self) == *old(self),
            },
            final(self).amount.wf(),
    {
        let scaled = match (self.units, units) {
            (DoseUnits::Mg, DoseUnits::G) | (DoseUnits::Ug, DoseUnits::Mg) => self
                .amount
                .checked_scale_den(1000),
            (DoseUnits::G, DoseUnits::Mg) | (DoseUnits::Mg, DoseUnits::Ug) => self
                .amount
                .checked_scale_num(1000),
            (DoseUnits::Ug, DoseUnits::G) => self.amount.checked_scale_den(1000000),
            (DoseUnits::G, DoseUnits::Ug) => self.amount.checked_scale_num(1000000),
            _ => {
                return Ok(());
            },
        };
        match scaled {
            Some(a) => {
                self.amount = a;
                self.units = units;
                Ok(())
            },
            None => Err(UnitError::Overflow),
        }
    }

    /// A copy of the event with its amount expressed in the given unit.
    /// Unlike the in-place normalisation, an undefined pair here is an
    /// error, as the caller asked for that unit specifically.
    pub fn normalise_as_units(&self, units: DoseUnits) -> (r: Result<Ingestion<'a>, UnitError>)
        requires
            self.amount.wf(),
        ensures
            r == match convert_mass_spec(self.amount, self.units, units) {
                Ok(a) => Ok::<Ingestion<'a>, UnitError>(Ingestion { amount: a, units, ..*self }),
                Err(e) => Err::<Ingestion<'a>, UnitError>(e),
            },
            r matches Ok(n) ==> n.amount.wf(),
    {
        match convert_mass(&self.amount, self.units, units) {
            Ok(a) => Ok(
                Ingestion {
                    units,
                    amount: a,
                    timestamp: self.timestamp,
                    route_of_administration: self.route_of_administration,
                    substance: self.substance,
                },
            ),
            Err(e) => Err(e),
        }
    }
}

} // verus!
