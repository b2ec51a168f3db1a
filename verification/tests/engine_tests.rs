use substance_kinetics::{
    DosageType, DoseMetadata, DoseRange, DoseTimeRange, DoseUnits, Duration, Frac, ROAs,
    RouteOfAdministration, Substance, TimeUnits, UnitError,
};

fn frac(num: u64, den: u64) -> Frac {
    Frac { num, den }
}

fn empty_substance(routes: Vec<RouteOfAdministration>) -> Substance {
    Substance {
        name: String::from("test"),
        cross_tolerances: Vec::new(),
        routes_of_administration: routes,
        uncertain_interactions: Vec::new(),
        unsafe_interactions: Vec::new(),
        dangerous_interactions: Vec::new(),
    }
}

fn hours_range(start: u64, end: u64) -> DoseTimeRange {
    DoseTimeRange::new(frac(start, 1), frac(end, 1), TimeUnits::Hours).unwrap()
}

fn mg_meta() -> DoseMetadata {
    DoseMetadata {
        units: DoseUnits::Mg,
        threshold: None,
        heavy: None,
        common: None,
        light: None,
        strong: None,
    }
}

fn plain_route(ty: ROAs, dose: DoseMetadata, phases: Duration) -> RouteOfAdministration {
    RouteOfAdministration { ty, dose_metadata: dose, duration: phases }
}

#[test]
fn classification_tie_break_threshold_over_light() {
    let mut meta = mg_meta();
    meta.threshold = Some(frac(10, 1));
    meta.light = Some(DoseRange::new(frac(5, 1), frac(15, 1)));
    let route = plain_route(ROAs::Oral, meta, Duration::default());
    let substance = empty_substance(vec![route]);
    let ingestion = substance.new_ingestion(frac(10, 1), DoseUnits::Mg, 0, ROAs::Oral);
    assert_eq!(
        substance.dosage_type(&ingestion),
        Some(Ok(DosageType::Threshold))
    );
}

#[test]
fn classification_heavy_over_strong() {
    let mut meta = mg_meta();
    meta.heavy = Some(frac(50, 1));
    meta.strong = Some(DoseRange::new(frac(30, 1), frac(60, 1)));
    let route = plain_route(ROAs::Oral, meta, Duration::default());
    let substance = empty_substance(vec![route]);
    let ingestion = substance.new_ingestion(frac(55, 1), DoseUnits::Mg, 0, ROAs::Oral);
    assert_eq!(substance.dosage_type(&ingestion), Some(Ok(DosageType::Heavy)));
}

#[test]
fn classification_below_threshold_and_zero_effect() {
    let mut meta = mg_meta();
    meta.threshold = Some(frac(10, 1));
    meta.light = Some(DoseRange::new(frac(5, 1), frac(15, 1)));
    meta.common = Some(DoseRange::new(frac(15, 1), frac(30, 1)));
    let phases = Duration {
        comeup: Some(hours_range(0, 2)),
        peak: Some(hours_range(0, 4)),
        ..Duration::default()
    };
    let route = plain_route(ROAs::Oral, meta, phases);
    let substance = empty_substance(vec![route.clone()]);
    let ingestion = substance.new_ingestion(frac(2, 1), DoseUnits::Mg, 0, ROAs::Oral);
    assert_eq!(
        substance.dosage_type(&ingestion),
        Some(Ok(DosageType::BelowThreshold))
    );
    for elapsed in [frac(0, 1), frac(1, 2), frac(1, 1), frac(100, 1)] {
        let v = route.calc_effect(ingestion, elapsed).unwrap();
        assert!(v.value_eq(&frac(0, 1)));
    }
}

#[test]
fn classification_normalizes_amount_into_route_units() {
    let mut meta = mg_meta();
    meta.light = Some(DoseRange::new(frac(1, 1), frac(5, 1)));
    let route = plain_route(ROAs::Oral, meta, Duration::default());
    let substance = empty_substance(vec![route]);
    // 2000 µg is 2 mg, inside the light band.
    let ingestion = substance.new_ingestion(frac(2000, 1), DoseUnits::Ug, 0, ROAs::Oral);
    assert_eq!(substance.dosage_type(&ingestion), Some(Ok(DosageType::Light)));
}

#[test]
fn classification_half_open_band_edges() {
    let mut meta = mg_meta();
    meta.light = Some(DoseRange::new(frac(5, 1), frac(15, 1)));
    let route = plain_route(ROAs::Oral, meta, Duration::default());
    let substance = empty_substance(vec![route]);
    let at_start = substance.new_ingestion(frac(5, 1), DoseUnits::Mg, 0, ROAs::Oral);
    assert_eq!(substance.dosage_type(&at_start), Some(Ok(DosageType::Light)));
    let at_end = substance.new_ingestion(frac(15, 1), DoseUnits::Mg, 0, ROAs::Oral);
    assert_eq!(
        substance.dosage_type(&at_end),
        Some(Ok(DosageType::BelowThreshold))
    );
}

#[test]
fn test_dosage_type() {
    let mut meta = DoseMetadata {
        units: DoseUnits::Ug,
        threshold: Some(frac(15, 1)),
        heavy: Some(frac(300, 1)),
        common: Some(DoseRange::new(frac(75, 1), frac(150, 1))),
        light: Some(DoseRange::new(frac(20, 1), frac(75, 1))),
        strong: Some(DoseRange::new(frac(150, 1), frac(300, 1))),
    };
    meta.threshold = Some(frac(15, 1));
    let route = plain_route(ROAs::Sublingual, meta, Duration::default());
    let substance = empty_substance(vec![route]);
    let ingestion = substance.new_ingestion(frac(100, 1), DoseUnits::Ug, 0, ROAs::Sublingual);
    let dosage_type = ingestion.dosage_type();
    assert_eq!(dosage_type.unwrap(), Ok(DosageType::Common));

    let stronger = substance.new_ingestion(frac(200, 1), DoseUnits::Ug, 0, ROAs::Sublingual);
    assert_eq!(stronger.dosage_type().unwrap(), Ok(DosageType::Strong));
    let faint = substance.new_ingestion(frac(15, 1), DoseUnits::Ug, 0, ROAs::Sublingual);
    assert_eq!(faint.dosage_type().unwrap(), Ok(DosageType::Threshold));
}

#[test]
fn unknown_route_gives_absent_classification() {
    let route = plain_route(ROAs::Oral, mg_meta(), Duration::default());
    let substance = empty_substance(vec![route]);
    let ingestion = substance.new_ingestion(frac(1, 1), DoseUnits::Mg, 0, ROAs::Rectal);
    assert_eq!(substance.dosage_type(&ingestion), None);
    assert!(substance.route_of_administration(ROAs::Rectal).is_none());
}

#[test]
fn route_lookup_last_match_wins() {
    let mut first = mg_meta();
    first.threshold = Some(frac(1, 1));
    let mut second = mg_meta();
    second.threshold = Some(frac(2, 1));
    let substance = empty_substance(vec![
        plain_route(ROAs::Oral, first, Duration::default()),
        plain_route(ROAs::Oral, second, Duration::default()),
    ]);
    let found = substance.route_of_administration(ROAs::Oral).unwrap();
    assert_eq!(found.dose_metadata.threshold, Some(frac(2, 1)));
    let ingestion = substance.new_ingestion(frac(2, 1), DoseUnits::Mg, 0, ROAs::Oral);
    assert_eq!(
        substance.dosage_type(&ingestion),
        Some(Ok(DosageType::Threshold))
    );
}

#[test]
fn volume_amount_fails_loudly_in_classification() {
    let mut meta = mg_meta();
    meta.light = Some(DoseRange::new(frac(1, 1), frac(5, 1)));
    let route = plain_route(ROAs::Oral, meta, Duration::default());
    let substance = empty_substance(vec![route]);
    let ingestion = substance.new_ingestion(frac(2, 1), DoseUnits::Ml, 0, ROAs::Oral);
    assert_eq!(
        substance.dosage_type(&ingestion),
        Some(Err(UnitError::UnsupportedUnitConversion))
    );
}

#[test]
fn phase_walk_boundary_enters_peak() {
    let mut meta = mg_meta();
    meta.light = Some(DoseRange::new(frac(1, 1), frac(100, 1)));
    let phases = Duration {
        comeup: Some(hours_range(0, 2)),
        peak: Some(hours_range(0, 4)),
        ..Duration::default()
    };
    let route = plain_route(ROAs::Oral, meta, phases);
    let substance = empty_substance(vec![route.clone()]);
    let ingestion = substance.new_ingestion(frac(10, 1), DoseUnits::Mg, 0, ROAs::Oral);
    let v = route.calc_effect(ingestion, frac(1, 1)).unwrap();
    assert!(v.value_eq(&frac(1, 1)));
}

#[test]
fn interpolation_midline() {
    let mut meta = mg_meta();
    meta.light = Some(DoseRange::new(frac(1, 1), frac(100, 1)));
    let phases = Duration { comeup: Some(hours_range(0, 2)), ..Duration::default() };
    let route = plain_route(ROAs::Oral, meta, phases);
    let substance = empty_substance(vec![route.clone()]);
    let ingestion = substance.new_ingestion(frac(10, 1), DoseUnits::Mg, 0, ROAs::Oral);
    let v = route.calc_effect(ingestion, frac(1, 2)).unwrap();
    assert!(v.value_eq(&frac(1, 2)));
}

#[test]
fn absent_onset_matches_zero_length_onset() {
    let mut meta = mg_meta();
    meta.light = Some(DoseRange::new(frac(1, 1), frac(100, 1)));
    let without_onset = Duration { comeup: Some(hours_range(0, 1)), ..Duration::default() };
    let with_zero_onset = Duration {
        onset: Some(hours_range(0, 0)),
        comeup: Some(hours_range(0, 1)),
        ..Duration::default()
    };
    let r1 = plain_route(ROAs::Oral, meta.clone(), without_onset);
    let r2 = plain_route(ROAs::Oral, meta, with_zero_onset);
    let substance = empty_substance(vec![r1.clone()]);
    let ingestion = substance.new_ingestion(frac(10, 1), DoseUnits::Mg, 0, ROAs::Oral);
    for elapsed in [frac(1, 4), frac(1, 2), frac(3, 4), frac(2, 1)] {
        let a = r1.calc_effect(ingestion, elapsed).unwrap();
        let b = r2.calc_effect(ingestion, elapsed).unwrap();
        assert!(a.value_eq(&b));
    }
    // comeup midpoint is 0.5h, so a quarter hour in sits at the midline.
    let v = r1.calc_effect(ingestion, frac(1, 4)).unwrap();
    assert!(v.value_eq(&frac(1, 2)));
}

#[test]
fn full_walk_through_all_phases() {
    let mut meta = mg_meta();
    meta.light = Some(DoseRange::new(frac(1, 1), frac(100, 1)));
    let phases = Duration {
        onset: Some(hours_range(0, 1)),
        comeup: Some(hours_range(0, 2)),
        peak: Some(hours_range(0, 4)),
        offset: Some(hours_range(0, 2)),
        ..Duration::default()
    };
    let route = plain_route(ROAs::Oral, meta, phases);
    let substance = empty_substance(vec![route.clone()]);
    let ingestion = substance.new_ingestion(frac(10, 1), DoseUnits::Mg, 0, ROAs::Oral);
    // onset midpoint 0.5, comeup 1, peak 2, offset 1 (hours).
    let cases = [
        (frac(1, 4), frac(0, 1)),   // inside onset
        (frac(3, 4), frac(1, 4)),   // comeup, a quarter of the way up
        (frac(3, 2), frac(1, 1)),   // comeup boundary
        (frac(2, 1), frac(1, 1)),   // inside peak
        (frac(4, 1), frac(1, 2)),   // halfway down the offset
        (frac(10, 1), frac(0, 1)),  // past everything
    ];
    for (elapsed, expected) in cases {
        let v = route.calc_effect(ingestion, elapsed).unwrap();
        assert!(v.value_eq(&expected), "elapsed {:?}", elapsed);
    }
}

#[test]
fn afterglow_is_not_consumed() {
    let mut meta = mg_meta();
    meta.light = Some(DoseRange::new(frac(1, 1), frac(100, 1)));
    let phases = Duration {
        peak: Some(hours_range(0, 2)),
        afterglow: Some(hours_range(0, 100)),
        ..Duration::default()
    };
    let route = plain_route(ROAs::Oral, meta, phases);
    let substance = empty_substance(vec![route.clone()]);
    let ingestion = substance.new_ingestion(frac(10, 1), DoseUnits::Mg, 0, ROAs::Oral);
    // past the peak midpoint the intensity is 0, afterglow notwithstanding.
    let v = route.calc_effect(ingestion, frac(5, 1)).unwrap();
    assert!(v.value_eq(&frac(0, 1)));
}

#[test]
fn effect_fails_loudly_on_invalid_phase_unit() {
    let mut meta = mg_meta();
    meta.light = Some(DoseRange::new(frac(1, 1), frac(100, 1)));
    let bad_phase = DoseTimeRange {
        duration: frac(0, 1),
        start: frac(0, 1),
        end: frac(1, 1),
        midpoint: frac(1, 2),
        units: TimeUnits::Invalid,
    };
    let phases = Duration { comeup: Some(bad_phase), ..Duration::default() };
    let route = plain_route(ROAs::Oral, meta, phases);
    let substance = empty_substance(vec![route.clone()]);
    let ingestion = substance.new_ingestion(frac(10, 1), DoseUnits::Mg, 0, ROAs::Oral);
    assert_eq!(
        route.calc_effect(ingestion, frac(1, 1)),
        Err(UnitError::UnsupportedUnitConversion)
    );
}

#[test]
fn ingestion_setters_and_normalisation() {
    let substance = empty_substance(Vec::new());
    let mut ingestion = substance.new_ingestion(frac(1500, 1), DoseUnits::Mg, 7, ROAs::Oral);
    assert_eq!(ingestion.timestamp, 7);
    ingestion.set_amount(frac(2500, 1));
    assert_eq!(ingestion.amount, frac(2500, 1));
    ingestion.set_units(DoseUnits::Mg);
    assert_eq!(ingestion.units, DoseUnits::Mg);

    ingestion.normalise_to_units(DoseUnits::G).unwrap();
    assert_eq!(ingestion.units, DoseUnits::G);
    assert!(ingestion.amount.value_eq(&frac(5, 2)));

    // A pair with no defined conversion leaves the event untouched.
    ingestion.normalise_to_units(DoseUnits::Ml).unwrap();
    assert_eq!(ingestion.units, DoseUnits::G);
    assert!(ingestion.amount.value_eq(&frac(5, 2)));
}

#[test]
fn normalise_as_units_copies_and_errors() {
    let substance = empty_substance(Vec::new());
    let ingestion = substance.new_ingestion(frac(2, 1), DoseUnits::Mg, 0, ROAs::Oral);
    let in_ug = ingestion.normalise_as_units(DoseUnits::Ug).unwrap();
    assert!(in_ug.amount.value_eq(&frac(2000, 1)));
    assert_eq!(in_ug.units, DoseUnits::Ug);
    // the original event is unchanged
    assert!(ingestion.amount.value_eq(&frac(2, 1)));
    match ingestion.normalise_as_units(DoseUnits::Ml) {
        Err(e) => assert_eq!(e, UnitError::UnsupportedUnitConversion),
        Ok(_) => panic!("volume conversion should fail"),
    }
}

#[test]
fn roa_accessor_returns_documented_route() {
    let mut meta = mg_meta();
    meta.threshold = Some(frac(3, 1));
    let route = plain_route(ROAs::Smoked, meta, Duration::default());
    let substance = empty_substance(vec![route]);
    let ingestion = substance.new_ingestion(frac(3, 1), DoseUnits::Mg, 0, ROAs::Smoked);
    let found = ingestion.roa();
    assert_eq!(found.ty, ROAs::Smoked);
    assert_eq!(found.dose_metadata.threshold, Some(frac(3, 1)));
}

#[test]
fn route_name_parsing() {
    assert_eq!(ROAs::from(String::from("oral")), ROAs::Oral);
    assert_eq!(ROAs::from(String::from("Sublingual")), ROAs::Sublingual);
    assert_eq!(ROAs::from(String::from("insufflation")), ROAs::Insufflation);
    assert_eq!(ROAs::from(String::from("INSUFFILATION")), ROAs::Insufflation);
    assert_eq!(ROAs::from(String::from("vaporised")), ROAs::Vaporised);
    assert_eq!(ROAs::from(String::from("intravenous")), ROAs::Intravenous);
    assert_eq!(ROAs::from(String::from("snorted")), ROAs::Invalid);
    assert_eq!(ROAs::default(), ROAs::Invalid);
}
